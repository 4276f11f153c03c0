//! Classification of a name's ending into the finite set of categories that
//! select a suffix pair and a trimming policy.

use crate::letters::{is_vowel, vowel};
use vstd::prelude::*;
use vstd::string::StrSliceExecFns;

verus! {

/// The ending category of a name, decided by its trailing one or two letters.
/// Categories are checked in a fixed priority order and the first match wins,
/// so every name falls in exactly one category.
#[derive(Clone, Copy, PartialEq, Eq, Structural, Debug)]
pub enum EndingCategory {
    /// The last two letters are both vowels.
    DoubleVowel,
    /// The final letter is one of the hard consonants б, в, г, д, р, н, т.
    HardConsonant,
    /// The final letter is й.
    SoftIota,
    /// The final letter is one of the sibilants ж, ш, ч, щ, ц.
    Sibilant,
    /// The final letter is one of а, у, ы, о and the name is on the
    /// exception whitelist.
    WeakVowelException,
    /// The final letter is one of а, у, ы, о and the name is not on the
    /// exception whitelist.
    WeakVowelRegular,
    /// Every other final letter: a known gap in the rule set, reported to
    /// the caller rather than guessed at.
    Unclassified,
}

/// The fixed seven-letter set treated as hard consonants.
pub open spec fn hard_consonant(c: char) -> bool {
    c == 'б' || c == 'в' || c == 'г' || c == 'д' || c == 'р' || c == 'н' || c == 'т'
}

/// The sibilants ж, ш, ч, щ, ц.
pub open spec fn sibilant(c: char) -> bool {
    c == 'ж' || c == 'ш' || c == 'ч' || c == 'щ' || c == 'ц'
}

/// The weak vowels а, у, ы, о that end names of the trimming category.
pub open spec fn weak_vowel(c: char) -> bool {
    c == 'а' || c == 'у' || c == 'ы' || c == 'о'
}

/// The fixed whitelist of names that take the irregular short suffixes
/// `-ич` / `-ична`. Exact, case-sensitive match: no normalization.
pub open spec fn exception_name(s: Seq<char>) -> bool {
    s == "Аникита"@ || s == "Никита"@ || s == "Мина"@ || s == "Савва"@ || s == "Сила"@
        || s == "Фока"@
}

/// The ending category of `name`, as an ordered chain of predicates:
/// a double-vowel tail is checked first, then the final letter alone.
pub open spec fn classify_spec(name: Seq<char>) -> EndingCategory
    recommends
        name.len() >= 1,
{
    if name.len() >= 2 && vowel(name[name.len() - 1]) && vowel(name[name.len() - 2]) {
        EndingCategory::DoubleVowel
    } else {
        let last = name[name.len() - 1];
        if hard_consonant(last) {
            EndingCategory::HardConsonant
        } else if last == 'й' {
            EndingCategory::SoftIota
        } else if sibilant(last) {
            EndingCategory::Sibilant
        } else if weak_vowel(last) {
            if exception_name(name) {
                EndingCategory::WeakVowelException
            } else {
                EndingCategory::WeakVowelRegular
            }
        } else {
            EndingCategory::Unclassified
        }
    }
}

/// Exact, case-sensitive equality of two strings, letter by letter.
pub fn str_eq(a: &str, b: &str) -> (r: bool)
    ensures
        r == (a@ == b@),
{
    let a_len = a.unicode_len();
    let b_len = b.unicode_len();
    if a_len != b_len {
        return false;
    }
    let mut i: usize = 0;
    while i < a_len
        invariant
            a_len == a@.len(),
            b_len == b@.len(),
            a_len == b_len,
            i <= a_len,
            forall|j: int| 0 <= j < i ==> a@[j] == b@[j],
        decreases a_len - i,
    {
        if a.get_char(i) != b.get_char(i) {
            return false;
        }
        i += 1;
    }
    proof {
        assert(a@ =~= b@);
    }
    true
}

/// Membership in the exception registry: an exact string match against the
/// fixed set, with no fuzzy matching or case folding.
pub fn is_exception(name: &str) -> (r: bool)
    ensures
        r == exception_name(name@),
{
    str_eq(name, "Аникита") || str_eq(name, "Никита") || str_eq(name, "Мина") || str_eq(
        name,
        "Савва",
    ) || str_eq(name, "Сила") || str_eq(name, "Фока")
}

/// Assigns `name` its ending category. First matching rule wins; once the
/// double-vowel rule matches, the single-letter rules are never reached.
pub fn classify(name: &str) -> (c: EndingCategory)
    requires
        name@.len() >= 1,
    ensures
        c == classify_spec(name@),
{
    let n = name.unicode_len();
    if n >= 2 {
        let last = name.get_char(n - 1);
        let prev = name.get_char(n - 2);
        if is_vowel(last) && is_vowel(prev) {
            return EndingCategory::DoubleVowel;
        }
    }
    let last = name.get_char(n - 1);
    match last {
        'б' | 'в' | 'г' | 'д' | 'р' | 'н' | 'т' => EndingCategory::HardConsonant,
        'й' => EndingCategory::SoftIota,
        'ж' | 'ш' | 'ч' | 'щ' | 'ц' => EndingCategory::Sibilant,
        'а' | 'у' | 'ы' | 'о' => {
            if is_exception(name) {
                EndingCategory::WeakVowelException
            } else {
                EndingCategory::WeakVowelRegular
            }
        },
        _ => EndingCategory::Unclassified,
    }
}

} // verus!
