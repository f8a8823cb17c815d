use chara_turn::{CharaAttrRevision, CharaClass, Class, Classes};

fn class(hp: i32) -> Class {
    Class { revision: CharaAttrRevision { hp, vit: 1, dex: 2, wil: 3, cha: 4, spd: 5 } }
}

#[test]
fn the_default_class_is_the_civilian() {
    assert_eq!(CharaClass::default(), CharaClass::Civilian);
}

#[test]
fn a_class_without_rules_goes_by_the_default() {
    let classes = Classes::new(class(7));
    assert_eq!(*classes.get(CharaClass::Civilian), class(7));
    assert_eq!(*classes.get(CharaClass::Rogue), class(7));
    assert_eq!(*classes.get(CharaClass::Adventurer), class(7));
}

#[test]
fn a_class_with_rules_goes_by_its_own() {
    let mut classes = Classes::new(class(7));
    classes.insert(CharaClass::Rogue, class(-3));
    classes.insert(CharaClass::Farmer, class(12));
    assert_eq!(*classes.get(CharaClass::Rogue), class(-3));
    assert_eq!(*classes.get(CharaClass::Farmer), class(12));
    assert_eq!(*classes.get(CharaClass::Archeologist), class(7));
    assert_eq!(*classes.get(CharaClass::Civilian), class(7));
}

#[test]
fn inserting_replaces() {
    let mut classes = Classes::new(class(7));
    classes.insert(CharaClass::Adventurer, class(1));
    classes.insert(CharaClass::Adventurer, class(2));
    classes.insert(CharaClass::Civilian, class(9));
    assert_eq!(*classes.get(CharaClass::Adventurer), class(2));
    assert_eq!(*classes.get(CharaClass::Civilian), class(9));
    assert_eq!(*classes.get(CharaClass::Farmer), class(9));
}
