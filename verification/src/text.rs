use vstd::prelude::*;
use vstd::string::*;

verus! {

/// `str::eq`: whether two string slices hold the same characters.
#[verifier::external_body]
pub(crate) fn str_eq(a: &str, b: &str) -> (same: bool)
    ensures
        same == (a@ == b@),
{
    a == b
}

/// Whether a character is white space: the characters with the Unicode
/// property `White_Space`. These are the tab, the line feed, the vertical
/// tab, the form feed, the carriage return and the space, the next-line
/// control, the no-break space, the Ogham space mark, the spaces from the
/// en quad to the hair space, the line and the paragraph separator, the
/// narrow no-break space, the medium mathematical space and the
/// ideographic space.
pub open spec fn white_space(c: char) -> bool {
    let code = c as u32;
    ||| 0x09 <= code <= 0x0D
    ||| code == 0x20
    ||| code == 0x85
    ||| code == 0xA0
    ||| code == 0x1680
    ||| 0x2000 <= code <= 0x200A
    ||| code == 0x2028
    ||| code == 0x2029
    ||| code == 0x202F
    ||| code == 0x205F
    ||| code == 0x3000
}

/// `char::is_whitespace`: whether the character has the Unicode property
/// `White_Space`.
#[verifier::external_body]
pub(crate) fn is_whitespace(c: char) -> (white: bool)
    ensures
        white == white_space(c),
{
    c.is_whitespace()
}

/// Whether `s` begins with `prefix`.
pub open spec fn has_prefix(s: Seq<char>, prefix: Seq<char>) -> bool {
    prefix.len() <= s.len() && s.subrange(0, prefix.len() as int) == prefix
}

/// What follows the first space of `s`; nothing where `s` has no space.
pub open spec fn after_first_space(s: Seq<char>) -> Seq<char>
    decreases s.len(),
{
    if s.len() == 0 {
        s
    } else if s[0] == ' ' {
        s.drop_first()
    } else {
        after_first_space(s.drop_first())
    }
}

/// `s` without the white space at its start.
pub open spec fn trimmed_start(s: Seq<char>) -> Seq<char>
    decreases s.len(),
{
    if s.len() > 0 && white_space(s[0]) {
        trimmed_start(s.drop_first())
    } else {
        s
    }
}

/// `s` without the white space at its end.
pub open spec fn trimmed_end(s: Seq<char>) -> Seq<char>
    decreases s.len(),
{
    if s.len() > 0 && white_space(s.last()) {
        trimmed_end(s.drop_last())
    } else {
        s
    }
}

/// `s` without the white space at its start and at its end.
pub open spec fn trimmed(s: Seq<char>) -> Seq<char> {
    trimmed_end(trimmed_start(s))
}

proof fn lemma_after_first_space(s: Seq<char>, at: int)
    requires
        0 <= at <= s.len(),
        forall|j: int| 0 <= j < at ==> s[j] != ' ',
        at < s.len() ==> s[at] == ' ',
    ensures
        after_first_space(s) == if at < s.len() {
            s.subrange(at + 1, s.len() as int)
        } else {
            Seq::<char>::empty()
        },
    decreases at,
{
    if s.len() == 0 {
        assert(s =~= Seq::<char>::empty());
    } else if at == 0 {
        assert(s.drop_first() =~= s.subrange(1, s.len() as int));
    } else {
        let rest = s.drop_first();
        lemma_after_first_space(rest, at - 1);
        if at < s.len() {
            assert(rest.subrange(at, rest.len() as int) =~= s.subrange(at + 1, s.len() as int));
        }
    }
}

proof fn lemma_trimmed_start(s: Seq<char>, at: int)
    requires
        0 <= at <= s.len(),
        forall|j: int| 0 <= j < at ==> white_space(s[j]),
        at < s.len() ==> !white_space(s[at]),
    ensures
        trimmed_start(s) == s.subrange(at, s.len() as int),
    decreases at,
{
    if at == 0 {
        assert(s.subrange(0, s.len() as int) =~= s);
    } else {
        let rest = s.drop_first();
        lemma_trimmed_start(rest, at - 1);
        assert(rest.subrange(at - 1, rest.len() as int) =~= s.subrange(at, s.len() as int));
    }
}

proof fn lemma_trimmed_end(s: Seq<char>, at: int)
    requires
        0 <= at <= s.len(),
        forall|j: int| at <= j < s.len() ==> white_space(s[j]),
        0 < at ==> !white_space(s[at - 1]),
    ensures
        trimmed_end(s) == s.subrange(0, at),
    decreases s.len() - at,
{
    if at == s.len() {
        assert(s.subrange(0, s.len() as int) =~= s);
    } else {
        let rest = s.drop_last();
        lemma_trimmed_end(rest, at);
        assert(rest.subrange(0, at) =~= s.subrange(0, at));
    }
}

/// Whether `s` begins with `prefix`.
pub fn starts_with(s: &str, prefix: &str) -> (found: bool)
    ensures
        found == has_prefix(s@, prefix@),
{
    let n = prefix.unicode_len();
    let m = s.unicode_len();
    if n > m {
        return false;
    }
    str_eq(s.substring_char(0, n), prefix)
}

/// What follows `prefix` in `s`, where `s` begins with it.
pub fn strip_prefix<'a>(s: &'a str, prefix: &str) -> (rest: Option<&'a str>)
    ensures
        match rest {
            Some(r) => has_prefix(s@, prefix@) && r@ == s@.subrange(
                prefix@.len() as int,
                s@.len() as int,
            ),
            None => !has_prefix(s@, prefix@),
        },
{
    if starts_with(s, prefix) {
        Some(s.substring_char(prefix.unicode_len(), s.unicode_len()))
    } else {
        None
    }
}

/// What follows the first space of `s`; the empty text where `s` has no
/// space.
pub fn skip_first_word<'a>(s: &'a str) -> (rest: &'a str)
    ensures
        rest@ == after_first_space(s@),
{
    let n = s.unicode_len();
    let mut i: usize = 0;
    for c in it: s.chars()
        invariant
            i == it.index(),
            it.seq() == s@,
            n == s@.len(),
            i <= n,
            forall|j: int| 0 <= j < i ==> s@[j] != ' ',
    {
        if c == ' ' {
            proof {
                lemma_after_first_space(s@, i as int);
            }
            return s.substring_char(i + 1, n);
        }
        i += 1;
    }
    proof {
        lemma_after_first_space(s@, n as int);
    }
    s.substring_char(n, n)
}

/// `s` without the white space around it.
pub fn trim<'a>(s: &'a str) -> (inner: &'a str)
    ensures
        inner@ == trimmed(s@),
{
    let n = s.unicode_len();
    let mut start: usize = 0;
    let mut end: usize = 0;
    let mut i: usize = 0;
    for c in it: s.chars()
        invariant
            i == it.index(),
            it.seq() == s@,
            n == s@.len(),
            i <= n,
            end == 0 ==> start == i,
            end > 0 ==> start < end <= i,
            forall|j: int| 0 <= j < start ==> white_space(s@[j]),
            forall|j: int| end <= j < i ==> white_space(s@[j]),
            end > 0 ==> !white_space(s@[start as int]) && !white_space(s@[end - 1]),
    {
        if !is_whitespace(c) {
            end = i + 1;
        } else if end == 0 {
            start = i + 1;
        }
        i += 1;
    }
    if end == 0 {
        end = start;
    }
    proof {
        let front = s@.subrange(start as int, n as int);
        lemma_trimmed_start(s@, start as int);
        lemma_trimmed_end(front, end - start);
        assert(front.subrange(0, end - start) =~= s@.subrange(start as int, end as int));
    }
    s.substring_char(start, end)
}

} // verus!
