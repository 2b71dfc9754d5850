//! Character-level helpers shared by the tokenizer and the grammars.
use vstd::prelude::*;
use vstd::string::*;

verus! {

/// The characters that `char::is_whitespace` accepts (Unicode `White_Space`).
pub open spec fn is_ws(c: char) -> bool {
    ||| ('\u{9}' <= c && c <= '\u{d}')
    ||| c == ' '
    ||| c == '\u{85}'
    ||| c == '\u{a0}'
    ||| c == '\u{1680}'
    ||| ('\u{2000}' <= c && c <= '\u{200a}')
    ||| c == '\u{2028}'
    ||| c == '\u{2029}'
    ||| c == '\u{202f}'
    ||| c == '\u{205f}'
    ||| c == '\u{3000}'
}

/// Whether `c` separates tokens.
pub fn is_whitespace(c: char) -> (r: bool)
    ensures
        r == is_ws(c),
{
    ('\u{9}' <= c && c <= '\u{d}') || c == ' ' || c == '\u{85}' || c == '\u{a0}' || c
        == '\u{1680}' || ('\u{2000}' <= c && c <= '\u{200a}') || c == '\u{2028}' || c
        == '\u{2029}' || c == '\u{202f}' || c == '\u{205f}' || c == '\u{3000}'
}

/// Character-wise equality of two strings.
pub fn str_eq(a: &str, b: &str) -> (r: bool)
    ensures
        r == (a@ == b@),
{
    let n = a.unicode_len();
    if n != b.unicode_len() {
        return false;
    }
    let mut i: usize = 0;
    while i < n
        invariant
            n == a@.len(),
            n == b@.len(),
            i <= n,
            forall|k: int| 0 <= k < i ==> a@[k] == b@[k],
        decreases n - i,
    {
        if a.get_char(i) != b.get_char(i) {
            return false;
        }
        i = i + 1;
    }
    assert(a@ =~= b@);
    true
}

} // verus!

verus! {

/// How verbs and enumerated values are compared with their keywords.
#[derive(Clone, Copy, Debug, PartialEq, Eq)]
pub enum CaseRule {
    /// Character for character.
    Exact,
    /// Equal after mapping ASCII upper case to lower case.
    IgnoreAsciiCase,
}

pub open spec fn is_ascii_upper(c: char) -> bool {
    'A' <= c && c <= 'Z'
}

/// Equality of two characters up to ASCII case.
pub open spec fn fold_eq(a: char, b: char) -> bool {
    ||| a == b
    ||| (is_ascii_upper(a) && a as u32 + 32 == b as u32)
    ||| (is_ascii_upper(b) && b as u32 + 32 == a as u32)
}

/// Whether token `t` stands for keyword `kw` under `case`.
pub open spec fn kw_match(t: Seq<char>, kw: Seq<char>, case: CaseRule) -> bool {
    match case {
        CaseRule::Exact => t == kw,
        CaseRule::IgnoreAsciiCase => t.len() == kw.len() && forall|i: int|
            0 <= i < t.len() ==> fold_eq(#[trigger] t[i], kw[i]),
    }
}

/// Whether token `t` stands for keyword `kw` under `case`.
pub fn keyword_is(t: &str, kw: &str, case: CaseRule) -> (r: bool)
    ensures
        r == kw_match(t@, kw@, case),
{
    match case {
        CaseRule::Exact => str_eq(t, kw),
        CaseRule::IgnoreAsciiCase => {
            let n = t.unicode_len();
            if n != kw.unicode_len() {
                return false;
            }
            let mut i: usize = 0;
            while i < n
                invariant
                    n == t@.len(),
                    n == kw@.len(),
                    i <= n,
                    forall|k: int| 0 <= k < i ==> fold_eq(#[trigger] t@[k], kw@[k]),
                decreases n - i,
            {
                let a = t.get_char(i);
                let b = kw.get_char(i);
                let same = a == b || ('A' <= a && a <= 'Z' && a as u32 + 32 == b as u32) || (
                'A' <= b && b <= 'Z' && b as u32 + 32 == a as u32);
                if !same {
                    return false;
                }
                i = i + 1;
            }
            true
        },
    }
}

} // verus!

verus! {

/// A keyword stands for itself under either rule.
pub proof fn lemma_kw_self(k: Seq<char>, case: CaseRule)
    ensures
        kw_match(k, k, case),
{
}

/// Two words that differ at `i` in characters of the same case stand for
/// different keywords under either rule.
pub proof fn lemma_kw_differ(t: Seq<char>, kw: Seq<char>, case: CaseRule, i: int)
    requires
        0 <= i < t.len(),
        i < kw.len(),
        t[i] != kw[i],
        is_ascii_upper(t[i]) == is_ascii_upper(kw[i]),
    ensures
        !kw_match(t, kw, case),
{
    if kw_match(t, kw, case) {
        match case {
            CaseRule::Exact => {
                assert(t[i] == kw[i]);
            },
            CaseRule::IgnoreAsciiCase => {
                assert(fold_eq(t[i], kw[i]));
            },
        }
    }
}

} // verus!
