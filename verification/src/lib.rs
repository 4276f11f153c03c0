//! Derivation of Russian patronymics (отчество) from a father's first name
//! and a target grammatical gender, following the registry-office rules:
//! the name's ending is classified into a category, the category selects a
//! gendered suffix pair and a trimming policy, and the suffix is appended to
//! the (possibly trimmed) stem. A fixed list of exceptional names takes the
//! short suffixes `-ич` / `-ична` instead of the regular ones.

pub mod category;
pub mod deriver;
pub mod letters;
pub mod names;
pub mod suffix;

pub use deriver::from_name;
pub use deriver::Derivation;
pub use deriver::InvalidInputError;
pub use deriver::Sex;
pub use deriver::UnclassifiedEndingWarning;
pub use letters::is_vowel;
