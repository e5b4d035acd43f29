//! Classes of Devanagari characters used by the rules.
use vstd::prelude::*;

verus! {

/// A Devanagari consonant letter (व्यञ्जन): क–ह and the nukta letters क़–य़.
pub open spec fn is_vyanjan(c: char) -> bool {
    ('क' <= c && c <= 'ह') || ('\u{0958}' <= c && c <= '\u{095F}')
}

/// A Devanagari dependent vowel sign (मात्रा): ा–ौ and the vocalic ॢ ॣ signs.
pub open spec fn is_matra(c: char) -> bool {
    ('\u{093E}' <= c && c <= '\u{094C}') || c == '\u{0962}' || c == '\u{0963}'
}

/// Whether `c` is a consonant letter.
pub fn vyanjan(c: char) -> (r: bool)
    ensures
        r == is_vyanjan(c),
{
    ('क' <= c && c <= 'ह') || ('\u{0958}' <= c && c <= '\u{095F}')
}

/// Whether `c` is a dependent vowel sign.
pub fn matra(c: char) -> (r: bool)
    ensures
        r == is_matra(c),
{
    ('\u{093E}' <= c && c <= '\u{094C}') || c == '\u{0962}' || c == '\u{0963}'
}

} // verus!
