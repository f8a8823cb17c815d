use chara_turn::{
    Chara, CharaAttributes, CharaEx, CharaId, CharaRules, CharaStatus, ExpRules, Ratio, Rules,
    SkillList,
};

fn rules() -> Rules {
    Rules {
        chara: CharaRules {
            sp_max: 100,
            sp_hungry: 40,
            sp_weak: 20,
            sp_starving: 5,
            sp_consumption: 2,
            sp_consumption_regen: 1,
            hp_regeneration_probability: Ratio { num: 1, den: 2 },
            hp_regeneration_factor: Ratio { num: 3, den: 2 },
        },
        exp: ExpRules {
            attack: 10,
            endurance: 100,
            evasion: 10,
            healing: 10,
            healing_probability: Ratio { num: 1, den: 4 },
        },
    }
}

fn chara(sp: i32, max_hp: i32) -> Chara {
    Chara {
        hp: 50,
        sp,
        attr: CharaAttributes { max_hp, spd: 100 },
        status: Vec::new(),
        skills: SkillList::new(),
        traits: Vec::new(),
        wait_time: 0,
    }
}

fn count(c: &Chara, s: CharaStatus) -> usize {
    c.status.iter().filter(|x| **x == s).count()
}

#[test]
fn rules_are_valid() {
    assert!(rules().is_valid());
}

#[test]
fn rules_with_unordered_thresholds_are_not_valid() {
    let mut r = rules();
    r.chara.sp_weak = 40;
    assert!(!r.is_valid());
    let mut r = rules();
    r.chara.sp_max = 0;
    assert!(!r.is_valid());
    let mut r = rules();
    r.chara.hp_regeneration_factor.den = 0;
    assert!(!r.is_valid());
    let mut r = rules();
    r.exp.healing_probability = Ratio { num: 5, den: 4 };
    assert!(!r.is_valid());
}

#[test]
fn sp_moves_by_the_delta() {
    let r = rules();
    let mut c = chara(60, 100);
    assert_eq!(c.add_sp(-7, CharaId::Player, &r), None);
    assert_eq!(c.sp, 53);
    assert_eq!(c.add_sp(9, CharaId::Player, &r), None);
    assert_eq!(c.sp, 62);
    assert!(c.status.is_empty());
    assert_eq!(c.hp, 50);
}

#[test]
fn sp_never_ends_below_the_starving_line() {
    let r = rules();
    let deltas: [i32; 7] = [-1, -30, -1000, i32::MIN, 0, 17, i32::MAX];
    for start in [5i32, 6, 40, 41, 1000, -20, i32::MIN, i32::MAX] {
        for d in deltas {
            for cid in [CharaId::Player, CharaId::OnSite { id: 3 }] {
                let mut c = chara(start, 100);
                c.add_sp(d, cid, &r);
                assert!(c.sp >= 5, "start {} delta {}", start, d);
            }
        }
    }
}

#[test]
fn deficit_becomes_damage() {
    let r = rules();
    let mut c = chara(6, 100);
    // 6 - 11 = -5, ten below the line: 4 * 100 * 10 / 100
    assert_eq!(c.add_sp(-11, CharaId::Player, &r), Some(40));
    assert_eq!(c.sp, 5);
}

#[test]
fn damage_is_rounded_after_the_multiplication_by_four() {
    let r = rules();
    let mut c = chara(5, 10);
    // 4 * 10 * 3 / 100 = 1.2
    assert_eq!(c.add_sp(-3, CharaId::Player, &r), Some(1));
    let mut c = chara(5, 10);
    // 4 * 10 * 2 / 100 = 0.8
    assert_eq!(c.add_sp(-2, CharaId::Player, &r), Some(0));
}

#[test]
fn damage_of_a_negative_maximum_is_rounded_toward_zero() {
    let r = rules();
    let mut c = chara(5, -10);
    // 4 * -10 * 3 / 100 = -1.2
    assert_eq!(c.add_sp(-3, CharaId::Player, &r), Some(-1));
}

#[test]
fn damage_stops_at_the_ends_of_the_range() {
    let mut r = rules();
    r.chara.sp_max = 1;
    let mut c = chara(5, i32::MAX);
    assert_eq!(c.add_sp(i32::MIN, CharaId::Player, &r), Some(i32::MAX));
    let mut c = chara(5, i32::MIN);
    assert_eq!(c.add_sp(i32::MIN, CharaId::Player, &r), Some(i32::MIN));
}

#[test]
fn sp_stops_at_the_top_of_the_range() {
    let r = rules();
    let mut c = chara(i32::MAX - 1, 100);
    assert_eq!(c.add_sp(10, CharaId::Player, &r), None);
    assert_eq!(c.sp, i32::MAX);
}

#[test]
fn sub_sp_is_add_sp_negated() {
    let r = rules();
    let mut a = chara(50, 100);
    let mut b = chara(50, 100);
    assert_eq!(a.sub_sp(30, CharaId::Player, &r), b.add_sp(-30, CharaId::Player, &r));
    assert_eq!(a.sp, 20);
    assert_eq!(a.sp, b.sp);
    assert_eq!(a.status, b.status);
    assert_eq!(a.status, vec![CharaStatus::Weak]);
    let mut c = chara(50, 100);
    assert_eq!(c.sub_sp(i32::MIN, CharaId::Player, &r), None);
    assert_eq!(c.sp, i32::MAX);
}

#[test]
fn crossing_a_line_downward_sets_its_status() {
    let r = rules();
    let mut c = chara(41, 100);
    c.add_sp(-1, CharaId::Player, &r);
    assert_eq!(c.status, vec![CharaStatus::Hungry]);
    c.add_sp(-20, CharaId::Player, &r);
    assert_eq!(c.status, vec![CharaStatus::Weak]);
    c.add_sp(-15, CharaId::Player, &r);
    assert_eq!(c.sp, 5);
    assert_eq!(c.status, vec![CharaStatus::Starving]);
}

#[test]
fn crossing_all_lines_at_once_leaves_starving() {
    let r = rules();
    let mut c = chara(100, 100);
    c.status.push(CharaStatus::Poisoned);
    assert_eq!(c.add_sp(-95, CharaId::Player, &r), None);
    assert_eq!(c.status, vec![CharaStatus::Poisoned, CharaStatus::Starving]);
}

#[test]
fn hungry_is_added_once_while_sp_stays_below_the_line() {
    let r = rules();
    let mut c = chara(42, 100);
    for _ in 0..10 {
        c.add_sp(-1, CharaId::Player, &r);
        assert!(count(&c, CharaStatus::Hungry) <= 1);
    }
    assert_eq!(c.sp, 32);
    assert_eq!(c.status, vec![CharaStatus::Hungry]);
}

#[test]
fn no_hungry_is_added_below_the_line() {
    let r = rules();
    let mut c = chara(35, 100);
    for _ in 0..5 {
        c.add_sp(-2, CharaId::Player, &r);
        assert_eq!(count(&c, CharaStatus::Hungry), 0);
    }
    assert!(c.status.is_empty());
}

#[test]
fn a_status_of_hunger_takes_the_place_of_another() {
    let r = rules();
    let mut c = chara(25, 100);
    c.status = vec![CharaStatus::Hungry, CharaStatus::Asleep { turn_left: 2 }, CharaStatus::Hungry];
    c.add_sp(-5, CharaId::Player, &r);
    assert_eq!(c.status, vec![CharaStatus::Asleep { turn_left: 2 }, CharaStatus::Weak]);
}

#[test]
fn replenishment_above_the_hungry_line_clears_hunger() {
    let r = rules();
    let mut c = chara(30, 100);
    c.status = vec![CharaStatus::Poisoned, CharaStatus::Hungry];
    c.add_sp(11, CharaId::Player, &r);
    assert_eq!(c.sp, 41);
    assert_eq!(c.status, vec![CharaStatus::Poisoned]);
}

#[test]
fn replenishment_up_to_the_hungry_line_changes_nothing() {
    let r = rules();
    let mut c = chara(30, 100);
    c.status = vec![CharaStatus::Hungry];
    c.add_sp(10, CharaId::Player, &r);
    assert_eq!(c.sp, 40);
    assert_eq!(c.status, vec![CharaStatus::Hungry]);
}

#[test]
fn replenishment_from_weak_leaves_weak() {
    let r = rules();
    let mut c = chara(10, 100);
    c.status = vec![CharaStatus::Weak];
    c.add_sp(15, CharaId::Player, &r);
    assert_eq!(c.sp, 25);
    assert_eq!(c.status, vec![CharaStatus::Weak]);
    let mut c = chara(5, 100);
    c.status = vec![CharaStatus::Starving, CharaStatus::Scanned];
    c.add_sp(35, CharaId::Player, &r);
    assert_eq!(c.sp, 40);
    assert_eq!(c.status, vec![CharaStatus::Scanned, CharaStatus::Weak]);
}

#[test]
fn replenishment_from_weak_past_the_hungry_line_leaves_weak_too() {
    let r = rules();
    let mut c = chara(20, 100);
    c.status = vec![CharaStatus::Weak];
    c.add_sp(50, CharaId::Player, &r);
    assert_eq!(c.sp, 70);
    assert_eq!(c.status, vec![CharaStatus::Weak]);
}

#[test]
fn a_delta_of_zero_changes_nothing() {
    let r = rules();
    let mut c = chara(20, 100);
    c.status = vec![CharaStatus::Hungry, CharaStatus::Hungry];
    assert_eq!(c.add_sp(0, CharaId::Player, &r), None);
    assert_eq!(c.sp, 20);
    assert_eq!(c.status, vec![CharaStatus::Hungry, CharaStatus::Hungry]);
}

#[test]
fn others_than_the_player_never_go_hungry() {
    let r = rules();
    let mut c = chara(45, 100);
    assert_eq!(c.add_sp(-10, CharaId::Ally { id: 1 }, &r), None);
    assert_eq!(c.sp, 40);
    assert!(c.status.is_empty());
    let mut c = chara(45, 100);
    assert_eq!(c.add_sp(-3, CharaId::OnMap { mid: 2, n: 7 }, &r), None);
    assert_eq!(c.sp, 42);
}

#[test]
fn others_than_the_player_still_take_the_damage_of_a_deficit() {
    let r = rules();
    let mut c = chara(45, 100);
    assert_eq!(c.add_sp(-50, CharaId::OnSite { id: 9 }, &r), Some(40));
    assert_eq!(c.sp, 40);
    assert!(c.status.is_empty());
}

#[test]
fn heal_stops_at_the_maximum() {
    let mut c = chara(50, 100);
    c.heal(20);
    assert_eq!(c.hp, 70);
    c.heal(31);
    assert_eq!(c.hp, 100);
    c.heal(i32::MAX);
    assert_eq!(c.hp, 100);
    c.heal(-30);
    assert_eq!(c.hp, 70);
    c.hp = i32::MIN + 1;
    c.heal(-5);
    assert_eq!(c.hp, i32::MIN);
}

#[test]
fn wait_time_follows_speed() {
    let mut c = chara(50, 100);
    c.reset_wait_time();
    assert_eq!(c.wait_time, 1000);
    c.attr.spd = 3;
    c.reset_wait_time();
    assert_eq!(c.wait_time, 33333);
}
