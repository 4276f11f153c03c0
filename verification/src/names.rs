//! Merging name lists into a pool of distinct names, and assembling a
//! person record whose patronymic is derived from the father's first name.

use crate::deriver::{from_name, patronymic_spec, Sex};
use vstd::prelude::*;

verus! {

/// A synthesized person: the own first name and gender, the patronymic
/// derived from the father's first name, and a surname.
#[derive(Debug)]
pub struct Person {
    pub sex: Sex,
    pub first_name: String,
    pub patronymic: String,
    pub surname: String,
}

/// Does `v` hold a string whose characters equal `s`?
pub open spec fn holds_string(v: Seq<String>, s: Seq<char>) -> bool {
    exists|i: int| 0 <= i < v.len() && v[i]@ == s
}

/// Does one of the lists hold a string whose characters equal `s`?
pub open spec fn in_lists(lists: Seq<Vec<String>>, s: Seq<char>) -> bool {
    exists|j: int| 0 <= j < lists.len() && holds_string(lists[j]@, s)
}

fn contains_string(v: &Vec<String>, s: &String) -> (r: bool)
    ensures
        r == holds_string(v@, s@),
{
    let mut i: usize = 0;
    while i < v.len()
        invariant
            i <= v@.len(),
            forall|j: int| 0 <= j < i ==> v@[j]@ != s@,
        decreases v@.len() - i,
    {
        if v[i].eq(s) {
            return true;
        }
        i += 1;
    }
    false
}

/// Merges several name lists into one pool of distinct names: every name of
/// every list appears in the result, every result entry comes from some
/// list, and no two result entries are equal.
pub fn merge_names(lists: &Vec<Vec<String>>) -> (r: Vec<String>)
    ensures
        forall|i: int| 0 <= i < r@.len() ==> in_lists(lists@, #[trigger] r@[i]@),
        forall|j: int, k: int|
            0 <= j < lists@.len() && 0 <= k < lists@[j]@.len() ==> holds_string(
                r@,
                #[trigger] lists@[j]@[k]@,
            ),
        forall|i1: int, i2: int| 0 <= i1 < i2 < r@.len() ==> r@[i1]@ != r@[i2]@,
{
    let mut result: Vec<String> = Vec::new();
    let mut j: usize = 0;
    while j < lists.len()
        invariant
            j <= lists@.len(),
            forall|i: int| 0 <= i < result@.len() ==> in_lists(lists@, #[trigger] result@[i]@),
            forall|j2: int, k: int|
                0 <= j2 < j && 0 <= k < lists@[j2]@.len() ==> holds_string(
                    result@,
                    #[trigger] lists@[j2]@[k]@,
                ),
            forall|i1: int, i2: int| 0 <= i1 < i2 < result@.len() ==> result@[i1]@ != result@[i2]@,
        decreases lists@.len() - j,
    {
        let inner: &Vec<String> = &lists[j];
        let mut k: usize = 0;
        while k < inner.len()
            invariant
                j < lists@.len(),
                inner@ == lists@[j as int]@,
                k <= inner@.len(),
                forall|i: int| 0 <= i < result@.len() ==> in_lists(lists@, #[trigger] result@[i]@),
                forall|j2: int, k2: int|
                    0 <= j2 < j && 0 <= k2 < lists@[j2]@.len() ==> holds_string(
                        result@,
                        #[trigger] lists@[j2]@[k2]@,
                    ),
                forall|k2: int|
                    0 <= k2 < k ==> holds_string(result@, #[trigger] inner@[k2]@),
                forall|i1: int, i2: int|
                    0 <= i1 < i2 < result@.len() ==> result@[i1]@ != result@[i2]@,
            decreases inner@.len() - k,
        {
            let name: &String = &inner[k];
            if !contains_string(&result, name) {
                let ghost old_result = result@;
                result.push(name.clone());
                proof {
                    assert forall|s: Seq<char>| holds_string(old_result, s) implies holds_string(
                        result@,
                        s,
                    ) by {
                        let i = choose|i: int| 0 <= i < old_result.len() && old_result[i]@ == s;
                        assert(result@[i]@ == s);
                    }
                    assert(result@[result@.len() - 1]@ == name@);
                }
            }
            k += 1;
        }
        j += 1;
    }
    result
}

/// Assembles a person record: the patronymic is derived from the father's
/// (non-empty) first name, inflected for the person's own gender; the other
/// fields are taken as given.
pub fn make_person(sex: Sex, first_name: String, father_name: &str, surname: String) -> (p: Person)
    requires
        father_name@.len() >= 1,
    ensures
        p.sex == sex,
        p.first_name@ == first_name@,
        p.patronymic@ == patronymic_spec(father_name@, sex),
        p.surname@ == surname@,
{
    let patronymic = from_name(father_name, sex);
    Person { sex, first_name, patronymic, surname }
}

} // verus!
