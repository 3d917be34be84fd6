//! Unicode normalization of status texts and filter terms.
use kanaria::string::UCSStr;
use unicode_normalization::UnicodeNormalization;
use vstd::prelude::*;

verus! {

/// The NFC (canonical composition) form of `s`, as unicode-normalization computes it.
pub uninterp spec fn nfc_of(s: Seq<char>) -> Seq<char>;

/// The NFKC (compatibility composition) form of `s`, as unicode-normalization computes it.
pub uninterp spec fn nfkc_of(s: Seq<char>) -> Seq<char>;

/// kanaria's lower-case conversion of one character: the Latin capitals A to Z,
/// narrow (U+0041 to U+005A) or wide (U+FF21 to U+FF3A), move up by 0x20 to
/// their small letters; every other character stays.
pub open spec fn lower_case_char(c: char) -> char {
    let v = c as u32;
    if (0x41 <= v && v <= 0x5A) || (0xFF21 <= v && v <= 0xFF3A) {
        (v + 0x20) as char
    } else {
        c
    }
}

/// kanaria's hiragana conversion of one character: the wide katakana U+30A1 to
/// U+30F6 and U+30FD to U+30FF move down by 0x60 to the matching hiragana; every
/// other character stays (half-width katakana among them).
pub open spec fn hiragana_char(c: char) -> char {
    let v = c as u32;
    if (0x30A1 <= v && v <= 0x30F6) || (0x30FD <= v && v <= 0x30FF) {
        (v - 0x60) as char
    } else {
        c
    }
}

/// `s` with its Latin capitals turned into small letters, character by character,
/// as kanaria's `lower_case` conversion does.
pub open spec fn lower_case_of(s: Seq<char>) -> Seq<char> {
    s.map_values(|c: char| lower_case_char(c))
}

/// `s` with its wide katakana turned into hiragana, character by character, as
/// kanaria's `hiragana` conversion does.
pub open spec fn hiragana_of(s: Seq<char>) -> Seq<char> {
    s.map_values(|c: char| hiragana_char(c))
}

/// The form in which texts and terms are compared.  Case-sensitive matching
/// only identifies canonically equivalent texts (NFC).  Case-insensitive matching
/// first brings compatibility variants such as half-width katakana to their
/// canonical form (NFKC), then folds upper into lower case and katakana into
/// hiragana, and composes the result again (NFKC).
pub open spec fn normalized(s: Seq<char>, case_sensitive: bool) -> Seq<char> {
    if case_sensitive {
        nfc_of(s)
    } else {
        nfkc_of(hiragana_of(lower_case_of(nfkc_of(s))))
    }
}

/// `UnicodeNormalization::nfc` of unicode-normalization, collected into a `String`.
/// Claims only that the result is the NFC form named by `nfc_of`.
#[verifier::external_body]
fn nfc(s: &str) -> (res: String)
    ensures
        res@ == nfc_of(s@),
{
    s.nfc().collect()
}

/// `UnicodeNormalization::nfkc` of unicode-normalization, collected into a `String`.
/// Claims only that the result is the NFKC form named by `nfkc_of`.
#[verifier::external_body]
fn nfkc(s: &str) -> (res: String)
    ensures
        res@ == nfkc_of(s@),
{
    s.nfkc().collect()
}

/// kanaria's `UCSStr::lower_case` conversion, applied to `s` and read back as a `String`.
/// Claims that it maps each character as `lower_case_char` says, as kanaria's
/// `AsciiUtils::convert_to_lower_case` does.
#[verifier::external_body]
fn lower_case(s: &str) -> (res: String)
    ensures
        res@ == lower_case_of(s@),
{
    UCSStr::from_str(s).lower_case().to_string()
}

/// kanaria's `UCSStr::hiragana` conversion, applied to `s` and read back as a `String`.
/// Claims that it maps each character as `hiragana_char` says, as kanaria's
/// `KanaUtils::convert_to_hiragana` does.
#[verifier::external_body]
fn hiragana(s: &str) -> (res: String)
    ensures
        res@ == hiragana_of(s@),
{
    UCSStr::from_str(s).hiragana().to_string()
}

/// Normalizes `content` for matching: NFC when `case_sensitive`, else NFKC, then
/// lower case, then hiragana, then NFKC.
pub fn normalize(content: &str, case_sensitive: bool) -> (res: String)
    ensures
        res@ == normalized(content@, case_sensitive),
{
    if case_sensitive {
        nfc(content)
    } else {
        let compat = nfkc(content);
        let lower = lower_case(compat.as_str());
        let kana = hiragana(lower.as_str());
        nfkc(kana.as_str())
    }
}

/// Each term of `terms` normalized for matching, in order.
pub fn normalize_all(terms: &Vec<String>, case_sensitive: bool) -> (res: Vec<String>)
    ensures
        res@.len() == terms@.len(),
        forall|i: int|
            0 <= i < terms@.len() ==> #[trigger] res@[i]@ == normalized(terms@[i]@, case_sensitive),
{
    let mut res: Vec<String> = Vec::new();
    let n = terms.len();
    for i in 0..n
        invariant
            n == terms@.len(),
            res@.len() == i,
            forall|k: int|
                0 <= k < i ==> #[trigger] res@[k]@ == normalized(terms@[k]@, case_sensitive),
    {
        res.push(normalize(terms[i].as_str(), case_sensitive));
    }
    res
}

} // verus!
