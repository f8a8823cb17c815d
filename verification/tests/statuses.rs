use chara_turn::{add_status, advance_all, partition_expired, remove_sp_status, CharaStatus};

#[test]
fn countdowns_go_down_and_stop_at_zero() {
    let mut s = CharaStatus::Asleep { turn_left: 3 };
    s.advance_turn(1);
    assert_eq!(s, CharaStatus::Asleep { turn_left: 2 });
    s.advance_turn(5);
    assert_eq!(s, CharaStatus::Asleep { turn_left: 0 });
    let mut w = CharaStatus::Work { turn_left: 10, needed_turn: 12, work: 77 };
    w.advance_turn(4);
    assert_eq!(w, CharaStatus::Work { turn_left: 6, needed_turn: 12, work: 77 });
    w.advance_turn(6);
    assert_eq!(w, CharaStatus::Work { turn_left: 0, needed_turn: 12, work: 77 });
}

#[test]
fn statuses_without_a_countdown_do_not_age() {
    for s in [
        CharaStatus::Hungry,
        CharaStatus::Weak,
        CharaStatus::Starving,
        CharaStatus::Burdened,
        CharaStatus::Stressed,
        CharaStatus::Strained,
        CharaStatus::Overloaded,
        CharaStatus::Scanned,
        CharaStatus::Poisoned,
    ] {
        let mut t = s;
        t.advance_turn(9);
        assert_eq!(t, s);
        assert!(!t.is_expired());
        assert!(!t.blocks_acting());
    }
}

#[test]
fn only_a_countdown_at_zero_is_expired() {
    assert!(CharaStatus::Asleep { turn_left: 0 }.is_expired());
    assert!(!CharaStatus::Asleep { turn_left: 1 }.is_expired());
    assert!(CharaStatus::Work { turn_left: 0, needed_turn: 4, work: 1 }.is_expired());
    assert!(!CharaStatus::Work { turn_left: 2, needed_turn: 4, work: 1 }.is_expired());
}

#[test]
fn three_statuses_are_about_sp() {
    assert!(CharaStatus::Hungry.about_sp());
    assert!(CharaStatus::Weak.about_sp());
    assert!(CharaStatus::Starving.about_sp());
    assert!(!CharaStatus::Poisoned.about_sp());
    assert!(!CharaStatus::Asleep { turn_left: 1 }.about_sp());
    assert!(!CharaStatus::Overloaded.about_sp());
}

#[test]
fn sleep_and_work_block_acting() {
    assert!(CharaStatus::Asleep { turn_left: 0 }.blocks_acting());
    assert!(CharaStatus::Work { turn_left: 1, needed_turn: 2, work: 0 }.blocks_acting());
}

#[test]
fn advance_all_ages_every_status() {
    let mut v = vec![
        CharaStatus::Asleep { turn_left: 1 },
        CharaStatus::Poisoned,
        CharaStatus::Work { turn_left: 5, needed_turn: 9, work: 3 },
    ];
    advance_all(&mut v, 2);
    assert_eq!(
        v,
        vec![
            CharaStatus::Asleep { turn_left: 0 },
            CharaStatus::Poisoned,
            CharaStatus::Work { turn_left: 3, needed_turn: 9, work: 3 },
        ]
    );
    let mut none: Vec<CharaStatus> = Vec::new();
    advance_all(&mut none, 1);
    assert!(none.is_empty());
}

#[test]
fn partition_keeps_the_order_on_both_sides() {
    let mut v = vec![
        CharaStatus::Work { turn_left: 0, needed_turn: 9, work: 3 },
        CharaStatus::Hungry,
        CharaStatus::Asleep { turn_left: 0 },
        CharaStatus::Asleep { turn_left: 4 },
        CharaStatus::Poisoned,
        CharaStatus::Work { turn_left: 0, needed_turn: 2, work: 8 },
    ];
    let expired = partition_expired(&mut v);
    assert_eq!(
        expired,
        vec![
            CharaStatus::Work { turn_left: 0, needed_turn: 9, work: 3 },
            CharaStatus::Asleep { turn_left: 0 },
            CharaStatus::Work { turn_left: 0, needed_turn: 2, work: 8 },
        ]
    );
    assert_eq!(
        v,
        vec![CharaStatus::Hungry, CharaStatus::Asleep { turn_left: 4 }, CharaStatus::Poisoned]
    );
}

#[test]
fn partition_of_nothing_expired_changes_nothing() {
    let mut v = vec![CharaStatus::Poisoned, CharaStatus::Asleep { turn_left: 1 }];
    let expired = partition_expired(&mut v);
    assert!(expired.is_empty());
    assert_eq!(v, vec![CharaStatus::Poisoned, CharaStatus::Asleep { turn_left: 1 }]);
}

#[test]
fn remove_sp_status_keeps_the_others() {
    let mut v = vec![
        CharaStatus::Starving,
        CharaStatus::Poisoned,
        CharaStatus::Hungry,
        CharaStatus::Scanned,
        CharaStatus::Weak,
    ];
    remove_sp_status(&mut v);
    assert_eq!(v, vec![CharaStatus::Poisoned, CharaStatus::Scanned]);
}

#[test]
fn add_status_appends_what_is_not_about_sp() {
    let mut v = vec![CharaStatus::Hungry, CharaStatus::Poisoned];
    add_status(&mut v, CharaStatus::Poisoned);
    assert_eq!(v, vec![CharaStatus::Hungry, CharaStatus::Poisoned, CharaStatus::Poisoned]);
}

#[test]
fn add_status_replaces_what_is_about_sp() {
    let mut v = vec![CharaStatus::Hungry, CharaStatus::Poisoned, CharaStatus::Weak];
    add_status(&mut v, CharaStatus::Hungry);
    assert_eq!(v, vec![CharaStatus::Poisoned, CharaStatus::Hungry]);
}
