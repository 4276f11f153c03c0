//! Vowel classification over single Cyrillic letters.

use vstd::prelude::*;

verus! {

/// The fixed Cyrillic vowel set: а, е, ё, и, о, у, ы, э, ю, я.
pub open spec fn vowel(c: char) -> bool {
    c == 'а' || c == 'е' || c == 'ё' || c == 'и' || c == 'о' || c == 'у' || c == 'ы' || c == 'э'
        || c == 'ю' || c == 'я'
}

/// Classifies a single letter as vowel (`true`) or consonant (`false`).
/// Total: every character is classified, letters outside the vowel set
/// count as consonants.
#[verifier::when_used_as_spec(vowel)]
pub fn is_vowel(letter: char) -> (r: bool)
    ensures
        r == vowel(letter),
{
    match letter {
        'а' | 'е' | 'ё' | 'и' | 'о' | 'у' | 'ы' | 'э' | 'ю' | 'я' => true,
        _ => false,
    }
}

} // verus!
