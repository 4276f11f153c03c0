//! The fixed table mapping each ending category to its gendered suffix pair
//! and its trimming policy.

use crate::category::EndingCategory;
use vstd::prelude::*;

verus! {

/// Whether the final letter of the name is dropped before the suffix is
/// appended.
#[derive(Clone, Copy, PartialEq, Eq, Structural, Debug)]
pub enum TrimPolicy {
    /// The name is kept intact.
    KeepAll,
    /// Exactly the final letter is dropped.
    TrimOne,
}

/// The trimming policy of each category: only the soft-iota ending and the
/// two weak-vowel branches drop their final letter.
pub open spec fn trim_policy_spec(c: EndingCategory) -> TrimPolicy {
    match c {
        EndingCategory::SoftIota => TrimPolicy::TrimOne,
        EndingCategory::WeakVowelException => TrimPolicy::TrimOne,
        EndingCategory::WeakVowelRegular => TrimPolicy::TrimOne,
        _ => TrimPolicy::KeepAll,
    }
}

/// The male half of each category's suffix pair. `Unclassified` gets no
/// suffix at all.
pub open spec fn male_suffix_spec(c: EndingCategory) -> Seq<char> {
    match c {
        EndingCategory::DoubleVowel => "евич"@,
        EndingCategory::HardConsonant => "ович"@,
        EndingCategory::SoftIota => "евич"@,
        EndingCategory::Sibilant => "евич"@,
        EndingCategory::WeakVowelException => "ич"@,
        EndingCategory::WeakVowelRegular => "ович"@,
        EndingCategory::Unclassified => ""@,
    }
}

/// The female half of each category's suffix pair. `Unclassified` gets no
/// suffix at all.
pub open spec fn female_suffix_spec(c: EndingCategory) -> Seq<char> {
    match c {
        EndingCategory::DoubleVowel => "евна"@,
        EndingCategory::HardConsonant => "овна"@,
        EndingCategory::SoftIota => "евна"@,
        EndingCategory::Sibilant => "евна"@,
        EndingCategory::WeakVowelException => "ична"@,
        EndingCategory::WeakVowelRegular => "овна"@,
        EndingCategory::Unclassified => ""@,
    }
}

/// Looks up the trimming policy of `c`.
pub fn trim_policy(c: EndingCategory) -> (t: TrimPolicy)
    ensures
        t == trim_policy_spec(c),
{
    match c {
        EndingCategory::SoftIota => TrimPolicy::TrimOne,
        EndingCategory::WeakVowelException => TrimPolicy::TrimOne,
        EndingCategory::WeakVowelRegular => TrimPolicy::TrimOne,
        _ => TrimPolicy::KeepAll,
    }
}

/// Looks up the male suffix of `c`.
pub fn male_suffix(c: EndingCategory) -> (r: &'static str)
    ensures
        r@ == male_suffix_spec(c),
{
    match c {
        EndingCategory::DoubleVowel => "евич",
        EndingCategory::HardConsonant => "ович",
        EndingCategory::SoftIota => "евич",
        EndingCategory::Sibilant => "евич",
        EndingCategory::WeakVowelException => "ич",
        EndingCategory::WeakVowelRegular => "ович",
        EndingCategory::Unclassified => "",
    }
}

/// Looks up the female suffix of `c`.
pub fn female_suffix(c: EndingCategory) -> (r: &'static str)
    ensures
        r@ == female_suffix_spec(c),
{
    match c {
        EndingCategory::DoubleVowel => "евна",
        EndingCategory::HardConsonant => "овна",
        EndingCategory::SoftIota => "евна",
        EndingCategory::Sibilant => "евна",
        EndingCategory::WeakVowelException => "ична",
        EndingCategory::WeakVowelRegular => "овна",
        EndingCategory::Unclassified => "",
    }
}

} // verus!
