use patronymic::category::{classify, EndingCategory};
use patronymic::suffix::{trim_policy, TrimPolicy};
use patronymic::{from_name, is_vowel, Sex};

fn check_name(name: &str, male_name: &str, female_name: &str) {
    assert_eq!(male_name, from_name(name, Sex::Male));
    assert_eq!(female_name, from_name(name, Sex::Female));
}

#[test]
fn test_from_name() {
    // 1.
    check_name("Александр", "Александрович", "Александровна");
    check_name("Иван", "Иванович", "Ивановна");
    check_name("Гамзат", "Гамзатович", "Гамзатовна");
    // 2.
    check_name("Андрей", "Андреевич", "Андреевна");
    check_name("Жорж", "Жоржевич", "Жоржевна");
    check_name("Милич", "Миличевич", "Миличевна");
    check_name("Франц", "Францевич", "Францевна");
    check_name("Януш", "Янушевич", "Янушевна");
    // 3.
    check_name("Антипа", "Антипович", "Антиповна");
    check_name("Вавила", "Вавилович", "Вавиловна");
    check_name("Бату", "Батович", "Батовна");
    check_name("Метлы", "Метлович", "Метловна");
    check_name("Аникита", "Аникитич", "Аникитична");
    check_name("Никита", "Никитич", "Никитична");
    check_name("Мина", "Минич", "Минична");
    check_name("Савва", "Саввич", "Саввична");
    check_name("Сила", "Силич", "Силична");
    check_name("Фока", "Фокич", "Фокична");
    // 4.
    check_name("Василько", "Василькович", "Васильковна");
    check_name("Отто", "Оттович", "Оттовна");
    // 13.
    check_name("Бимбии", "Бимбииевич", "Бимбииевна");
    check_name("Бобоо", "Бобооевич", "Бобооевна");
    check_name("Бурбээ", "Бурбээевич", "Бурбээевна");
}

#[test]
fn empty_name_is_rejected() {
    assert!(patronymic::deriver::derive("", Sex::Male).is_err());
    assert!(patronymic::deriver::derive("", Sex::Female).is_err());
}

#[test]
fn derive_reports_no_warning_for_classified_names() {
    let d = patronymic::deriver::derive("Александр", Sex::Male).unwrap();
    assert_eq!(d.patronymic, "Александрович");
    assert!(d.warning.is_none());
}

#[test]
fn unclassified_name_comes_back_unchanged_with_warning() {
    // Ends in "е" after a consonant: no rule covers it.
    let d = patronymic::deriver::derive("Аарне", Sex::Male).unwrap();
    assert_eq!(d.patronymic, "Аарне");
    let w = d.warning.expect("the coverage gap must be surfaced");
    assert_eq!(w.name, "Аарне");
    // Soft-sign ending: also uncovered.
    assert_eq!(from_name("Игорь", Sex::Male), "Игорь");
    let d2 = patronymic::deriver::derive("Игорь", Sex::Female).unwrap();
    assert_eq!(d2.patronymic, "Игорь");
    assert!(d2.warning.is_some());
}

#[test]
fn single_letter_names_are_trimmed_to_the_bare_suffix() {
    assert_eq!(from_name("а", Sex::Male), "ович");
    assert_eq!(from_name("а", Sex::Female), "овна");
    assert_eq!(from_name("й", Sex::Male), "евич");
}

#[test]
fn classification_follows_the_priority_order() {
    // The double-vowel rule wins before the single-letter rules.
    assert_eq!(classify("Бобоо"), EndingCategory::DoubleVowel);
    // The letter й does not count as a vowel, so "ий" is a soft-iota
    // ending, not a double-vowel tail.
    assert_eq!(classify("Василий"), EndingCategory::SoftIota);
    assert_eq!(classify("Александр"), EndingCategory::HardConsonant);
    assert_eq!(classify("Андрей"), EndingCategory::SoftIota);
    assert_eq!(classify("Франц"), EndingCategory::Sibilant);
    assert_eq!(classify("Никита"), EndingCategory::WeakVowelException);
    assert_eq!(classify("Антипа"), EndingCategory::WeakVowelRegular);
    assert_eq!(classify("Игорь"), EndingCategory::Unclassified);
}

#[test]
fn exception_match_is_exact_and_case_sensitive() {
    // Lower case, or extra letters, fall back to the regular branch.
    assert_eq!(classify("никита"), EndingCategory::WeakVowelRegular);
    assert_eq!(from_name("никита", Sex::Male), "никитович");
    assert_eq!(classify("Никитка"), EndingCategory::WeakVowelRegular);
}

#[test]
fn genders_share_category_and_stem() {
    let names = ["Александр", "Андрей", "Франц", "Никита", "Антипа", "Бобоо", "Игорь"];
    for name in names {
        let male = from_name(name, Sex::Male);
        let female = from_name(name, Sex::Female);
        let stem_len = match trim_policy(classify(name)) {
            TrimPolicy::TrimOne => name.chars().count() - 1,
            TrimPolicy::KeepAll => name.chars().count(),
        };
        let male_stem: String = male.chars().take(stem_len).collect();
        let female_stem: String = female.chars().take(stem_len).collect();
        assert_eq!(male_stem, female_stem);
    }
}

#[test]
fn vowel_set_is_exact() {
    for c in ['а', 'е', 'ё', 'и', 'о', 'у', 'ы', 'э', 'ю', 'я'] {
        assert!(is_vowel(c));
    }
    for c in ['б', 'й', 'ь', 'ж', 'н', 'A', 'a', ' '] {
        assert!(!is_vowel(c));
    }
}
