//! The patronymic deriver: exception check, ending classification and suffix
//! application, as one pure pass over the name.

use crate::category::{classify, classify_spec, EndingCategory};
use crate::suffix::{
    female_suffix, female_suffix_spec, male_suffix, male_suffix_spec, trim_policy,
    trim_policy_spec, TrimPolicy,
};
use vstd::prelude::*;
use vstd::string::{StrSliceExecFns, StringExecFns};

verus! {

/// The grammatical gender a patronymic is derived for.
#[derive(Clone, Copy, PartialEq, Eq, Structural, Debug)]
pub enum Sex {
    Male,
    Female,
}

/// The input name was empty: no suffix rule can be evaluated without at
/// least one letter.
#[derive(Clone, Copy, PartialEq, Eq, Structural, Debug)]
pub struct InvalidInputError;

/// Non-fatal: the name's final letter matched no known ending category, so
/// the name came back unchanged. Carries the original name so that callers
/// can observe the gap in rule coverage.
#[derive(Debug)]
pub struct UnclassifiedEndingWarning {
    pub name: String,
}

/// A successful derivation: the patronymic, and a warning whenever the name
/// fell in the `Unclassified` category.
#[derive(Debug)]
pub struct Derivation {
    pub patronymic: String,
    pub warning: Option<UnclassifiedEndingWarning>,
}

/// The gender-selected half of the suffix pair of category `c`.
pub open spec fn suffix_spec(c: EndingCategory, sex: Sex) -> Seq<char> {
    match sex {
        Sex::Male => male_suffix_spec(c),
        Sex::Female => female_suffix_spec(c),
    }
}

/// The stem: the name with exactly its final letter dropped where the
/// name's category trims, the whole name otherwise.
pub open spec fn stem_spec(name: Seq<char>) -> Seq<char>
    recommends
        name.len() >= 1,
{
    if trim_policy_spec(classify_spec(name)) == TrimPolicy::TrimOne {
        name.drop_last()
    } else {
        name
    }
}

/// The patronymic derived from `name` for `sex`: the stem followed by the
/// gender-selected suffix of the name's category.
pub open spec fn patronymic_spec(name: Seq<char>, sex: Sex) -> Seq<char>
    recommends
        name.len() >= 1,
{
    stem_spec(name) + suffix_spec(classify_spec(name), sex)
}

/// Derives the patronymic of a non-empty first name for the given gender.
/// For an `Unclassified` ending the suffix is empty, so the name comes back
/// unchanged.
pub fn from_name(first_name: &str, sex: Sex) -> (r: String)
    requires
        first_name@.len() >= 1,
    ensures
        r@ == patronymic_spec(first_name@, sex),
{
    let cat = classify(first_name);
    let stem: &str = match trim_policy(cat) {
        TrimPolicy::TrimOne => {
            let n = first_name.unicode_len();
            first_name.substring_char(0, n - 1)
        },
        TrimPolicy::KeepAll => first_name,
    };
    proof {
        assert(stem@ =~= stem_spec(first_name@));
    }
    let suffix: &str = match sex {
        Sex::Male => male_suffix(cat),
        Sex::Female => female_suffix(cat),
    };
    stem.to_owned().concat(suffix)
}

/// Derives the patronymic and reports the two boundary conditions: an empty
/// name is rejected as `InvalidInputError`, and an unclassified ending is
/// surfaced as a warning carrying the original name.
pub fn derive(first_name: &str, sex: Sex) -> (r: Result<Derivation, InvalidInputError>)
    ensures
        r is Err <==> first_name@.len() == 0,
        r matches Ok(d) ==> d.patronymic@ == patronymic_spec(first_name@, sex),
        r matches Ok(d) ==> match d.warning {
            Some(w) => classify_spec(first_name@) is Unclassified && w.name@ == first_name@,
            None => !(classify_spec(first_name@) is Unclassified),
        },
{
    if first_name.is_empty() {
        return Err(InvalidInputError);
    }
    let cat = classify(first_name);
    let patronymic = from_name(first_name, sex);
    let warning = if cat == EndingCategory::Unclassified {
        Some(UnclassifiedEndingWarning { name: first_name.to_owned() })
    } else {
        None
    };
    Ok(Derivation { patronymic, warning })
}

/// Law: the two genders share the same ending category, stem and trim
/// decision. Each patronymic starts with the shared stem and ends with the
/// suffix that the shared category selects for that gender — the results
/// differ only in the suffix text.
pub proof fn lemma_genders_share_category_and_stem(name: Seq<char>)
    requires
        name.len() >= 1,
    ensures
        patronymic_spec(name, Sex::Male).subrange(0, stem_spec(name).len() as int) == stem_spec(
            name,
        ),
        patronymic_spec(name, Sex::Female).subrange(0, stem_spec(name).len() as int) == stem_spec(
            name,
        ),
        patronymic_spec(name, Sex::Male).skip(stem_spec(name).len() as int) == male_suffix_spec(
            classify_spec(name),
        ),
        patronymic_spec(name, Sex::Female).skip(stem_spec(name).len() as int)
            == female_suffix_spec(classify_spec(name)),
{
    let stem = stem_spec(name);
    let cat = classify_spec(name);
    assert(patronymic_spec(name, Sex::Male).subrange(0, stem.len() as int) =~= stem);
    assert(patronymic_spec(name, Sex::Female).subrange(0, stem.len() as int) =~= stem);
    assert(patronymic_spec(name, Sex::Male).skip(stem.len() as int) =~= male_suffix_spec(cat));
    assert(patronymic_spec(name, Sex::Female).skip(stem.len() as int) =~= female_suffix_spec(cat));
}

/// Law: derivation is a single, non-recursive pass. The suffix appended to
/// the trimmed stem is the one selected by the whole name's category; the
/// stem is never classified again, even where on its own it would fall in a
/// different category.
pub proof fn lemma_single_classification(name: Seq<char>, sex: Sex)
    requires
        name.len() >= 1,
    ensures
        patronymic_spec(name, sex) == stem_spec(name) + suffix_spec(classify_spec(name), sex),
{
}

} // verus!
