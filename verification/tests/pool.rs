use patronymic::names::{make_person, merge_names};
use patronymic::Sex;

#[test]
fn merge_names_keeps_every_name_once() {
    let lists = vec![
        vec!["Иван".to_string(), "Пётр".to_string(), "Иван".to_string()],
        vec!["Пётр".to_string(), "Фома".to_string()],
    ];
    let merged = merge_names(&lists);
    assert_eq!(merged.len(), 3);
    for name in ["Иван", "Пётр", "Фома"] {
        assert_eq!(merged.iter().filter(|n| n.as_str() == name).count(), 1);
    }
}

#[test]
fn merge_names_of_nothing_is_empty() {
    assert!(merge_names(&vec![]).is_empty());
    assert!(merge_names(&vec![vec![], vec![]]).is_empty());
}

#[test]
fn make_person_derives_the_patronymic_from_the_father() {
    let p = make_person(
        Sex::Female,
        "Мария".to_string(),
        "Иван",
        "Смирнова".to_string(),
    );
    assert_eq!(p.first_name, "Мария");
    assert_eq!(p.patronymic, "Ивановна");
    assert_eq!(p.surname, "Смирнова");
    assert_eq!(p.sex, Sex::Female);
}
