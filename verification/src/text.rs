//! Character-level helpers for the settings text.
use vstd::prelude::*;

verus! {

/// The characters of `s`, in order.
pub fn chars_of(s: &str) -> (chars: Vec<char>)
    ensures
        chars@ == s@,
{
    let mut chars: Vec<char> = Vec::new();
    for c in it: s.chars()
        invariant
            chars@ == it.seq().take(it.index() as int),
    {
        chars.push(c);
    }
    chars
}

/// ASCII lowercase of one character; other characters are unchanged.
pub open spec fn lower(c: char) -> char {
    if 'A' <= c && c <= 'Z' {
        ((c as u32) + 32) as char
    } else {
        c
    }
}

pub fn to_lower(c: char) -> (l: char)
    ensures
        l == lower(c),
{
    if 'A' <= c && c <= 'Z' {
        ((c as u8) + 32) as char
    } else {
        c
    }
}

/// ASCII lowercase of every character.
pub open spec fn lower_all(s: Seq<char>) -> Seq<char> {
    s.map_values(|c: char| lower(c))
}

/// Equal up to ASCII case, as `str::eq_ignore_ascii_case` compares.
pub open spec fn eq_ignore_case(a: Seq<char>, b: Seq<char>) -> bool {
    lower_all(a) == lower_all(b)
}

/// The characters that `char::is_whitespace` accepts (Unicode `White_Space`).
pub open spec fn is_whitespace(c: char) -> bool {
    ||| ('\u{9}' <= c && c <= '\u{d}')
    ||| c == ' '
    ||| c == '\u{85}'
    ||| c == '\u{a0}'
    ||| c == '\u{1680}'
    ||| ('\u{2000}' <= c && c <= '\u{200a}')
    ||| c == '\u{2028}'
    ||| c == '\u{2029}'
    ||| c == '\u{202f}'
    ||| c == '\u{205f}'
    ||| c == '\u{3000}'
}

pub fn whitespace(c: char) -> (ws: bool)
    ensures
        ws == is_whitespace(c),
{
    ('\u{9}' <= c && c <= '\u{d}') || c == ' ' || c == '\u{85}' || c == '\u{a0}' || c
        == '\u{1680}' || ('\u{2000}' <= c && c <= '\u{200a}') || c == '\u{2028}' || c
        == '\u{2029}' || c == '\u{202f}' || c == '\u{205f}' || c == '\u{3000}'
}

/// `s` without leading whitespace.
pub open spec fn trim_start(s: Seq<char>) -> Seq<char>
    decreases s.len(),
{
    if s.len() > 0 && is_whitespace(s[0]) {
        trim_start(s.drop_first())
    } else {
        s
    }
}

/// `s` without trailing whitespace.
pub open spec fn trim_end(s: Seq<char>) -> Seq<char>
    decreases s.len(),
{
    if s.len() > 0 && is_whitespace(s.last()) {
        trim_end(s.drop_last())
    } else {
        s
    }
}

/// `s` without leading or trailing whitespace, as `str::trim` gives it.
pub open spec fn trim(s: Seq<char>) -> Seq<char> {
    trim_end(trim_start(s))
}

proof fn lemma_trim_start(s: Seq<char>, i: int)
    requires
        0 <= i <= s.len(),
        forall|k: int| 0 <= k < i ==> is_whitespace(#[trigger] s[k]),
        i == s.len() || !is_whitespace(s[i]),
    ensures
        trim_start(s) == s.subrange(i, s.len() as int),
    decreases i,
{
    if i > 0 {
        lemma_trim_start(s.drop_first(), i - 1);
        assert(s.drop_first().subrange(i - 1, s.len() - 1) =~= s.subrange(i, s.len() as int));
    } else {
        assert(s.subrange(0, s.len() as int) =~= s);
    }
}

proof fn lemma_trim_end(s: Seq<char>, j: int)
    requires
        0 <= j <= s.len(),
        forall|k: int| j <= k < s.len() ==> is_whitespace(#[trigger] s[k]),
        j == 0 || !is_whitespace(s[j - 1]),
    ensures
        trim_end(s) == s.subrange(0, j),
    decreases s.len() - j,
{
    if j < s.len() {
        lemma_trim_end(s.drop_last(), j);
        assert(s.drop_last().subrange(0, j) =~= s.subrange(0, j));
    } else {
        assert(s.subrange(0, s.len() as int) =~= s);
    }
}

/// The trimmed, lowercased text of `chars[start..end]`, or `None` when nothing
/// but whitespace is there.
pub fn trimmed_lower(chars: &Vec<char>, start: usize, end: usize) -> (name: Option<String>)
    requires
        start <= end <= chars.len(),
    ensures
        match name {
            None => trim(chars@.subrange(start as int, end as int)).len() == 0,
            Some(n) => {
                &&& trim(chars@.subrange(start as int, end as int)).len() > 0
                &&& n@ == lower_all(trim(chars@.subrange(start as int, end as int)))
            },
        },
{
    let ghost field = chars@.subrange(start as int, end as int);
    let mut i = start;
    while i < end && whitespace(chars[i])
        invariant
            start <= i <= end <= chars.len(),
            field == chars@.subrange(start as int, end as int),
            forall|k: int| 0 <= k < i - start ==> is_whitespace(#[trigger] field[k]),
        decreases end - i,
    {
        i = i + 1;
    }
    proof {
        lemma_trim_start(field, i - start);
    }
    let ghost rest = field.subrange(i - start, field.len() as int);
    let mut j = end;
    while j > i && whitespace(chars[j - 1])
        invariant
            start <= i <= j <= end <= chars.len(),
            field == chars@.subrange(start as int, end as int),
            rest == field.subrange(i - start, field.len() as int),
            forall|k: int| j - i <= k < rest.len() ==> is_whitespace(#[trigger] rest[k]),
        decreases j - i,
    {
        j = j - 1;
    }
    proof {
        lemma_trim_end(rest, j - i);
        assert(rest.subrange(0, j - i) =~= chars@.subrange(i as int, j as int));
    }
    if i == j {
        return None;
    }
    let mut name = String::new();
    let mut k = i;
    while k < j
        invariant
            i <= k <= j <= chars.len(),
            name@ == lower_all(chars@.subrange(i as int, k as int)),
        decreases j - k,
    {
        let c = to_lower(chars[k]);
        push_char(&mut name, c);
        assert(lower_all(chars@.subrange(i as int, k + 1)) =~= lower_all(
            chars@.subrange(i as int, k as int),
        ).push(c));
        k = k + 1;
    }
    Some(name)
}

/// Appends `c` to `s` with `String::push`, which std documents as appending the
/// given char to the end of the string: the text afterwards is the text before
/// followed by `c`.
#[verifier::external_body]
fn push_char(s: &mut String, c: char)
    ensures
        final(s)@ == old(s)@.push(c),
{
    s.push(c);
}

} // verus!
