use shadowpal::character::{Archetype, Character, Metatype};
use shadowpal::store::DataStore;
use shadowpal::text::{decimal_text, parse_i32, parse_u8, same_text};

fn named(name: &str) -> Character {
    Character {
        body: 3,
        agility: 3,
        reaction: 3,
        strength: 3,
        will: 3,
        logic: 3,
        intuition: 3,
        charisma: 3,
        edge: 1,
        magic_or_resonance: 0,
        essence_bits: 6.0f32.to_bits(),
        physical_damage: 0,
        stun_damage: 0,
        initiative: 0,
        matrix_initiative: 0,
        astral_initiative: 0,
        name: name.to_string(),
        metatype: Metatype::Human,
        archetype: Archetype::Face,
    }
}

#[test]
fn parse_u8_as_std_does() {
    for s in ["0", "7", "42", "255", "+3", "007", "256", "-1", "-0", "", "+", "-", "1a", " 1", "1 ", "٣", "99999999999999999999"] {
        assert_eq!(parse_u8(s), s.parse::<u8>().ok(), "{:?}", s);
    }
}

#[test]
fn parse_i32_as_std_does() {
    for s in [
        "0", "-0", "+0", "12", "-12", "2147483647", "2147483648", "-2147483648", "-2147483649",
        "", "-", "+", "--1", "+-1", "3.0", "99999999999999999999",
    ] {
        assert_eq!(parse_i32(s), s.parse::<i32>().ok(), "{:?}", s);
    }
}

#[test]
fn same_text_compares_characters() {
    assert!(same_text("VR (Hot)", "VR (Hot)"));
    assert!(!same_text("VR (Hot)", "VR (Cold)"));
    assert!(!same_text("AR", "AR "));
    assert!(same_text("", ""));
}

#[test]
fn decimal_text_writes_digits() {
    assert_eq!(decimal_text(0), "0");
    assert_eq!(decimal_text(7), "7");
    assert_eq!(decimal_text(1234), "1234");
    assert_eq!(decimal_text(10), "10");
    assert_eq!(decimal_text(1000), "1000");
    for n in [9usize, 99, 100, 65535, usize::MAX] {
        assert_eq!(decimal_text(n), n.to_string());
    }
}

#[test]
fn active_characters_are_found_by_id() {
    let mut store = DataStore::new();
    let a = store.add_active(named("A")).unwrap();
    let b = store.add_active(named("B")).unwrap();
    let c = store.add_active(named("C")).unwrap();
    assert!(a != b && b != c && a != c);
    assert_eq!(store.active_len(), 3);
    assert_eq!(store.find_active(b), Some(1));
    assert!(store.remove_active(b));
    assert_eq!(store.find_active(b), None);
    assert!(!store.remove_active(b));
    assert_eq!(store.active_len(), 2);
    assert_eq!(store.find_active(c), Some(1));
    assert_eq!(store.active_character(1).name, "C");
    assert_eq!(store.active_id(0), a);
    let d = store.add_active(named("D")).unwrap();
    assert!(d != a && d != b && d != c);
    // Removing a character does not hand its id out again.
    assert_eq!(d, 3);
}

#[test]
fn replacing_an_active_character_keeps_its_id() {
    let mut store = DataStore::from_parts(vec![named("A"), named("B")], vec![]);
    assert_eq!(store.active_id(0), 0);
    assert_eq!(store.active_id(1), 1);
    let mut changed = store.active_character(1).clone();
    changed.mark_damage(shadowpal::character::DamageTrack::Physical, 2, true);
    assert!(store.replace_active(1, changed));
    assert_eq!(store.active_character(1).physical_damage, 3);
    assert_eq!(store.find_active(1), Some(1));
    assert!(!store.replace_active(7, named("X")));
    let (active, templates) = store.into_parts();
    assert_eq!(active.len(), 2);
    assert!(templates.is_empty());
}

#[test]
fn ids_after_loading_continue_past_the_loaded_ones() {
    let mut store = DataStore::from_parts(vec![named("A"), named("B")], vec![named("T")]);
    let id = store.add_active(named("C")).unwrap();
    assert_eq!(id, 2);
    assert_eq!(store.templates().len(), 1);
}

#[test]
fn templates_are_saved_once_per_name() {
    let mut store = DataStore::new();
    assert_eq!(store.save_template(named("Guard")).ok(), Some(0));
    assert_eq!(store.save_template(named("Mage")).ok(), Some(1));
    let mut other = named("Guard");
    other.body = 9;
    let (pos, back) = store.save_template(other).unwrap_err();
    assert_eq!(pos, 0);
    assert_eq!(back.body, 9);
    assert_eq!(store.templates().len(), 2);
    assert_eq!(store.templates()[0].body, 3);
    store.replace_template(pos, back);
    assert_eq!(store.templates()[0].body, 9);
    assert_eq!(store.find_template(&"Mage".to_string()), Some(1));
    assert_eq!(store.find_template(&"Nobody".to_string()), None);
}

#[test]
fn template_list_shows_positions_and_names() {
    let store = DataStore::from_parts(vec![], vec![named("Guard"), named("Mage")]);
    let list = store.template_list();
    assert_eq!(
        list,
        vec![("0".to_string(), "Guard".to_string()), ("1".to_string(), "Mage".to_string())]
    );
}

#[test]
fn templates_are_deleted_by_listed_id() {
    let mut store = DataStore::from_parts(vec![], vec![named("A"), named("B"), named("C")]);
    assert!(!store.delete_template("3"));
    assert!(!store.delete_template("-1"));
    assert!(!store.delete_template("x"));
    assert!(store.delete_template("1"));
    let names: Vec<String> = store.templates().iter().map(|c| c.name.clone()).collect();
    assert_eq!(names, vec!["A".to_string(), "C".to_string()]);
    assert!(store.delete_template("-0"));
    assert_eq!(store.templates().len(), 1);
    assert_eq!(store.templates()[0].name, "C");
}
