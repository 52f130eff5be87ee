//! Characters, tokens and lines of a text.
//!
//! A text is read as its sequence of characters. A line ends at a line feed;
//! a carriage return directly before that line feed belongs to the line
//! ending. A token is a longest run of characters that are not white space.

use vstd::prelude::*;
use vstd::std_specs::iter::IteratorSpec;
use vstd::string::*;

verus! {

/// Whether `c` is white space: the code points that Unicode gives the
/// property `White_Space`.
pub open spec fn is_white_space(c: char) -> bool {
    let n = c as u32;
    ||| 0x09 <= n <= 0x0D
    ||| n == 0x20
    ||| n == 0x85
    ||| n == 0xA0
    ||| n == 0x1680
    ||| 0x2000 <= n <= 0x200A
    ||| n == 0x2028
    ||| n == 0x2029
    ||| n == 0x202F
    ||| n == 0x205F
    ||| n == 0x3000
}

/// How many characters at the start of `s` are white space.
pub open spec fn leading_space(s: Seq<char>) -> nat
    decreases s.len(),
{
    if s.len() > 0 && is_white_space(s[0]) {
        1 + leading_space(s.drop_first())
    } else {
        0
    }
}

/// How many characters at the start of `s` are not white space.
pub open spec fn leading_word(s: Seq<char>) -> nat
    decreases s.len(),
{
    if s.len() > 0 && !is_white_space(s[0]) {
        1 + leading_word(s.drop_first())
    } else {
        0
    }
}

/// The first token of `line`: what stands between the white space at its
/// start and the next white space or the end. A line of white space alone
/// has none.
pub open spec fn first_token_of(line: Seq<char>) -> Option<Seq<char>> {
    let rest = line.skip(leading_space(line) as int);
    let n = leading_word(rest);
    if n == 0 {
        None
    } else {
        Some(rest.take(n as int))
    }
}

/// The index just after the last line feed of `s`, and 0 where `s` holds no
/// line feed.
pub open spec fn line_start(s: Seq<char>) -> nat
    decreases s.len(),
{
    if s.len() == 0 {
        0
    } else if s.last() == '\n' {
        s.len()
    } else {
        line_start(s.drop_last())
    }
}

/// `s` without the carriage return at its end, if it has one there.
pub open spec fn without_return(s: Seq<char>) -> Seq<char> {
    if s.len() > 0 && s.last() == '\r' {
        s.drop_last()
    } else {
        s
    }
}

/// The last line of `text`. An empty text has no line. A line feed at the
/// very end closes the last line and opens no further one; only a line that
/// is closed loses a carriage return before its line feed.
pub open spec fn last_line_of(text: Seq<char>) -> Option<Seq<char>> {
    if text.len() == 0 {
        None
    } else if text.last() == '\n' {
        let body = text.drop_last();
        Some(without_return(body.skip(line_start(body) as int)))
    } else {
        Some(text.skip(line_start(text) as int))
    }
}

/// The characters of an optional string.
pub open spec fn chars_of(s: Option<String>) -> Option<Seq<char>> {
    match s {
        Some(t) => Some(t@),
        None => None,
    }
}

/// Tells whether `c` is white space.
pub fn is_whitespace(c: char) -> (b: bool)
    ensures
        b == is_white_space(c),
{
    let n: u32 = c as u32;
    (0x09 <= n && n <= 0x0D) || n == 0x20 || n == 0x85 || n == 0xA0 || n == 0x1680 || (0x2000 <= n
        && n <= 0x200A) || n == 0x2028 || n == 0x2029 || n == 0x202F || n == 0x205F || n == 0x3000
}

/// The characters of `text`, one by one.
pub fn characters(text: &str) -> (v: Vec<char>)
    ensures
        v@ == text@,
{
    let mut v: Vec<char> = Vec::new();
    let mut rest = text.chars();
    loop
        invariant
            v@ + rest.remaining() == text@,
            rest.decrease() is Some,
        ensures
            v@ == text@,
        decreases rest.decrease()->0,
    {
        match rest.next() {
            Some(c) => {
                v.push(c);
            },
            None => {
                break ;
            },
        }
    }
    v
}

/// White space up to `i` and none at `i`: then `i` characters of white
/// space lead `s`.
pub proof fn lemma_leading_space(s: Seq<char>, i: int)
    requires
        0 <= i <= s.len(),
        forall|k: int| 0 <= k < i ==> is_white_space(#[trigger] s[k]),
        i < s.len() ==> !is_white_space(s[i]),
    ensures
        leading_space(s) == i,
    decreases i,
{
    if i > 0 {
        let t = s.drop_first();
        assert forall|k: int| 0 <= k < i - 1 implies is_white_space(#[trigger] t[k]) by {
            assert(t[k] == s[k + 1]);
        }
        lemma_leading_space(t, i - 1);
    }
}

/// No white space up to `i` and white space, or the end, at `i`: then a word
/// of `i` characters leads `s`.
pub proof fn lemma_leading_word(s: Seq<char>, i: int)
    requires
        0 <= i <= s.len(),
        forall|k: int| 0 <= k < i ==> !is_white_space(#[trigger] s[k]),
        i < s.len() ==> is_white_space(s[i]),
    ensures
        leading_word(s) == i,
    decreases i,
{
    if i > 0 {
        let t = s.drop_first();
        assert forall|k: int| 0 <= k < i - 1 implies !is_white_space(#[trigger] t[k]) by {
            assert(t[k] == s[k + 1]);
        }
        lemma_leading_word(t, i - 1);
    }
}

/// A line feed just before `i`, or `i` at the start, and no line feed from
/// `i` on: then the last line of `s` starts at `i`.
pub proof fn lemma_line_start(s: Seq<char>, i: int)
    requires
        0 <= i <= s.len(),
        i > 0 ==> s[i - 1] == '\n',
        forall|k: int| i <= k < s.len() ==> #[trigger] s[k] != '\n',
    ensures
        line_start(s) == i,
    decreases s.len(),
{
    if i < s.len() {
        let t = s.drop_last();
        assert(s.last() == s[s.len() - 1]);
        assert forall|k: int| i <= k < t.len() implies #[trigger] t[k] != '\n' by {
            assert(t[k] == s[k]);
        }
        lemma_line_start(t, i);
    }
}

/// The white space that leads `s` is white space, and what follows it is
/// not.
pub proof fn lemma_leading_space_ends(s: Seq<char>)
    ensures
        leading_space(s) <= s.len(),
        forall|k: int| 0 <= k < leading_space(s) ==> is_white_space(#[trigger] s[k]),
        leading_space(s) < s.len() ==> !is_white_space(s[leading_space(s) as int]),
    decreases s.len(),
{
    if s.len() > 0 && is_white_space(s[0]) {
        let t = s.drop_first();
        lemma_leading_space_ends(t);
        assert forall|k: int| 0 <= k < leading_space(s) implies is_white_space(#[trigger] s[k]) by {
            if k > 0 {
                assert(s[k] == t[k - 1]);
            }
        }
        if leading_space(s) < s.len() {
            assert(s[leading_space(s) as int] == t[leading_space(t) as int]);
        }
    }
}

/// The word that leads `s` holds no white space, and white space or the
/// end follows it.
pub proof fn lemma_leading_word_ends(s: Seq<char>)
    ensures
        leading_word(s) <= s.len(),
        forall|k: int| 0 <= k < leading_word(s) ==> !is_white_space(#[trigger] s[k]),
        leading_word(s) < s.len() ==> is_white_space(s[leading_word(s) as int]),
    decreases s.len(),
{
    if s.len() > 0 && !is_white_space(s[0]) {
        let t = s.drop_first();
        lemma_leading_word_ends(t);
        assert forall|k: int| 0 <= k < leading_word(s) implies !is_white_space(#[trigger] s[k]) by {
            if k > 0 {
                assert(s[k] == t[k - 1]);
            }
        }
        if leading_word(s) < s.len() {
            assert(s[leading_word(s) as int] == t[leading_word(t) as int]);
        }
    }
}

/// The last line of `s` starts at the start of `s` or just after a line
/// feed, and holds no line feed.
pub proof fn lemma_line_start_ends(s: Seq<char>)
    ensures
        line_start(s) <= s.len(),
        line_start(s) > 0 ==> s[line_start(s) - 1] == '\n',
        forall|k: int| line_start(s) <= k < s.len() ==> #[trigger] s[k] != '\n',
    decreases s.len(),
{
    if s.len() > 0 && s.last() != '\n' {
        let t = s.drop_last();
        lemma_line_start_ends(t);
        if line_start(s) > 0 {
            assert(s[line_start(s) - 1] == t[line_start(t) - 1]);
        }
        assert forall|k: int| line_start(s) <= k < s.len() implies #[trigger] s[k] != '\n' by {
            if k < t.len() {
                assert(s[k] == t[k]);
            }
        }
    }
}

/// A line has no first token exactly when it is white space throughout. A
/// first token is not empty and holds no white space; it stands in the line
/// after white space alone, and white space or the end of the line follows
/// it.
pub proof fn law_first_token(line: Seq<char>)
    ensures
        first_token_of(line) is None <==> forall|k: int|
            0 <= k < line.len() ==> is_white_space(#[trigger] line[k]),
        first_token_of(line) matches Some(token) ==> {
            let from = leading_space(line) as int;
            let to = from + token.len();
            &&& from < to <= line.len()
            &&& token == line.subrange(from, to)
            &&& forall|k: int| 0 <= k < from ==> is_white_space(#[trigger] line[k])
            &&& forall|k: int| 0 <= k < token.len() ==> !is_white_space(#[trigger] token[k])
            &&& to < line.len() ==> is_white_space(line[to])
        },
{
    let from = leading_space(line) as int;
    lemma_leading_space_ends(line);
    let rest = line.skip(from);
    lemma_leading_word_ends(rest);
    let n = leading_word(rest) as int;
    if n == 0 {
        if from < line.len() {
            assert(rest[0] == line[from]);
        }
    } else {
        assert(rest[0] == line[from]);
        assert(rest.take(n) =~= line.subrange(from, from + n));
        if from + n < line.len() {
            assert(rest[n] == line[from + n]);
        }
    }
}

/// Whether `s` is what may close the last line of a text: nothing, a line
/// feed, or a carriage return and a line feed.
pub open spec fn is_line_ending(s: Seq<char>) -> bool {
    s =~= Seq::<char>::empty() || s =~= seq!['\n'] || s =~= seq!['\r', '\n']
}

/// Only the empty text has no last line. The last line holds no line feed;
/// it starts at the start of the text or just after a line feed, and
/// between it and the end of the text stands one line ending at most. An
/// ending of nothing closes no empty line, and a bare line feed follows no
/// carriage return.
pub proof fn law_last_line(text: Seq<char>)
    ensures
        last_line_of(text) is None <==> text.len() == 0,
        last_line_of(text) matches Some(line) ==> {
            &&& forall|k: int| 0 <= k < line.len() ==> #[trigger] line[k] != '\n'
            &&& exists|from: int|
                {
                    &&& 0 <= from && from + line.len() <= text.len()
                    &&& from > 0 ==> text[from - 1] == '\n'
                    &&& #[trigger] text.subrange(from, from + line.len()) == line
                    &&& is_line_ending(text.skip(from + line.len()))
                    &&& from + line.len() == text.len() ==> line.len() > 0
                    &&& from + line.len() + 1 == text.len() ==> line.len() == 0 || line.last()
                        != '\r'
                }
        },
{
    if text.len() > 0 {
        let line = last_line_of(text)->0;
        if text.last() == '\n' {
            let body = text.drop_last();
            lemma_line_start_ends(body);
            let from = line_start(body) as int;
            let raw = body.skip(from);
            assert forall|k: int| 0 <= k < line.len() implies #[trigger] line[k] != '\n' by {
                assert(line[k] == body[from + k]);
            }
            if from > 0 {
                assert(text[from - 1] == body[from - 1]);
            }
            assert(text.subrange(from, from + line.len()) =~= line);
            if raw.len() > 0 && raw.last() == '\r' {
                assert(text.skip(from + line.len()) =~= seq!['\r', '\n']);
            } else {
                assert(text.skip(from + line.len()) =~= seq!['\n']);
            }
        } else {
            lemma_line_start_ends(text);
            let from = line_start(text) as int;
            assert forall|k: int| 0 <= k < line.len() implies #[trigger] line[k] != '\n' by {
                assert(line[k] == text[from + k]);
            }
            assert(text.subrange(from, from + line.len()) =~= line);
            assert(text.skip(from + line.len()) =~= Seq::<char>::empty());
            if from == text.len() {
                assert(text[from - 1] == text.last());
            }
        }
    }
}

/// The first token of `line`, if it has one.
pub fn first_token(line: &str) -> (token: Option<String>)
    ensures
        chars_of(token) == first_token_of(line@),
{
    let v = characters(line);
    let n = v.len();
    let mut from: usize = 0;
    while from < n && is_whitespace(v[from])
        invariant
            n == v.len(),
            from <= n,
            forall|k: int| 0 <= k < from ==> is_white_space(#[trigger] v@[k]),
        decreases n - from,
    {
        from += 1;
    }
    let mut to: usize = from;
    while to < n && !is_whitespace(v[to])
        invariant
            n == v.len(),
            from <= to <= n,
            forall|k: int| from <= k < to ==> !is_white_space(#[trigger] v@[k]),
        decreases n - to,
    {
        to += 1;
    }
    proof {
        let rest = line@.skip(from as int);
        lemma_leading_space(line@, from as int);
        assert forall|k: int| 0 <= k < to - from implies !is_white_space(#[trigger] rest[k]) by {
            assert(rest[k] == v@[from + k]);
        }
        lemma_leading_word(rest, to - from);
        assert(rest.take(to - from) =~= line@.subrange(from as int, to as int));
    }
    if from == to {
        None
    } else {
        Some(line.substring_char(from, to).to_owned())
    }
}

/// The last line of `text`, if it has one.
pub fn last_line(text: &str) -> (line: Option<String>)
    ensures
        chars_of(line) == last_line_of(text@),
{
    let v = characters(text);
    let n = v.len();
    if n == 0 {
        return None;
    }
    let closed = v[n - 1] == '\n';
    let end: usize = if closed {
        n - 1
    } else {
        n
    };
    let mut from: usize = end;
    while from > 0 && v[from - 1] != '\n'
        invariant
            from <= end <= v.len(),
            forall|k: int| from <= k < end ==> #[trigger] v@[k] != '\n',
        decreases from,
    {
        from -= 1;
    }
    let to: usize = if closed && from < end && v[end - 1] == '\r' {
        end - 1
    } else {
        end
    };
    proof {
        let body = text@.take(end as int);
        assert(text@.last() == v@[n - 1]);
        assert(closed ==> body =~= text@.drop_last());
        assert(!closed ==> body =~= text@);
        lemma_line_start(body, from as int);
        let raw = body.skip(from as int);
        assert(raw =~= text@.subrange(from as int, end as int));
        if closed && from < end {
            assert(raw.last() == v@[end - 1]);
        }
        assert(closed ==> without_return(raw) =~= text@.subrange(from as int, to as int));
    }
    Some(text.substring_char(from, to).to_owned())
}

} // verus!
