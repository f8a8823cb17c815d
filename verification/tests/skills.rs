use chara_turn::{
    Chara, CharaAttributes, CharaEx, CharaRules, CharaTrait, ExpRules, Ratio, Rules, SkillKind,
    SkillList, SkillProgress, WeaponKind, SKILL_EXP_LVUP,
};

fn rules() -> Rules {
    Rules {
        chara: CharaRules {
            sp_max: 100,
            sp_hungry: 40,
            sp_weak: 20,
            sp_starving: 5,
            sp_consumption: 2,
            sp_consumption_regen: 1,
            hp_regeneration_probability: Ratio { num: 1, den: 2 },
            hp_regeneration_factor: Ratio { num: 3, den: 2 },
        },
        exp: ExpRules {
            attack: 120,
            endurance: 1000,
            evasion: 70,
            healing: 30,
            healing_probability: Ratio { num: 1, den: 4 },
        },
    }
}

fn chara() -> Chara {
    Chara {
        hp: 50,
        sp: 60,
        attr: CharaAttributes { max_hp: 100, spd: 100 },
        status: Vec::new(),
        skills: SkillList::new(),
        traits: Vec::new(),
        wait_time: 0,
    }
}

fn total(p: SkillProgress) -> u64 {
    p.level as u64 * SKILL_EXP_LVUP as u64 + p.exp as u64
}

#[test]
fn a_level_costs_ten_thousand() {
    assert_eq!(SKILL_EXP_LVUP, 10000);
}

#[test]
fn an_unknown_skill_reads_as_level_zero() {
    let c = chara();
    assert_eq!(c.skill_level(SkillKind::Healing), (0, 0));
    assert_eq!(c.skills.get(SkillKind::Weapon(WeaponKind::Bow)), 0);
    assert!(!c.skills.has(SkillKind::Healing));
    assert_eq!(c.skills.progress(SkillKind::Healing), None);
}

#[test]
fn a_learned_skill_reads_as_its_level() {
    let mut c = chara();
    c.skills.learn(SkillKind::Evasion, 4);
    c.skills.learn(SkillKind::Weapon(WeaponKind::Sword), 9);
    assert_eq!(c.skill_level(SkillKind::Evasion), (4, 0));
    assert_eq!(c.skill_level(SkillKind::Weapon(WeaponKind::Sword)), (9, 0));
    assert_eq!(c.skill_level(SkillKind::Weapon(WeaponKind::Axe)), (0, 0));
    assert!(c.skills.has(SkillKind::Evasion));
}

#[test]
fn learning_twice_keeps_the_first() {
    let mut s = SkillList::new();
    s.learn(SkillKind::Defence, 3);
    s.add_exp(SkillKind::Defence, 50, 3);
    s.learn(SkillKind::Defence, 1);
    assert_eq!(s.progress(SkillKind::Defence), Some(SkillProgress { level: 3, exp: 50 }));
}

#[test]
fn an_unknown_skill_takes_no_experience() {
    let mut c = chara();
    assert_eq!(c.add_skill_exp(SkillKind::Endurance, 500, 1), (false, 0));
    assert_eq!(c.skill_level(SkillKind::Endurance), (0, 0));
    assert!(!c.skills.has(SkillKind::Endurance));
}

#[test]
fn experience_gathers_toward_the_next_level() {
    let mut c = chara();
    c.skills.learn(SkillKind::Healing, 2);
    assert_eq!(c.add_skill_exp(SkillKind::Healing, 4000, 2), (false, 4000));
    assert_eq!(c.skills.progress(SkillKind::Healing), Some(SkillProgress { level: 2, exp: 4000 }));
    assert_eq!(c.add_skill_exp(SkillKind::Healing, 5999, 2), (false, 5999));
    assert_eq!(c.skills.progress(SkillKind::Healing), Some(SkillProgress { level: 2, exp: 9999 }));
}

#[test]
fn reaching_the_cost_raises_the_level_and_carries_the_rest() {
    let mut c = chara();
    c.skills.learn(SkillKind::Healing, 2);
    c.add_skill_exp(SkillKind::Healing, 9000, 2);
    assert_eq!(c.add_skill_exp(SkillKind::Healing, 1500, 2), (true, 1500));
    assert_eq!(c.skills.progress(SkillKind::Healing), Some(SkillProgress { level: 3, exp: 500 }));
    assert_eq!(c.add_skill_exp(SkillKind::Healing, 9500, 3), (true, 9500));
    assert_eq!(c.skills.progress(SkillKind::Healing), Some(SkillProgress { level: 4, exp: 0 }));
}

#[test]
fn a_grant_is_never_worth_more_than_a_level() {
    let mut c = chara();
    c.skills.learn(SkillKind::Carrying, 1);
    c.add_skill_exp(SkillKind::Carrying, 9999, 1);
    assert_eq!(c.add_skill_exp(SkillKind::Carrying, u32::MAX, 1), (true, 10000));
    assert_eq!(c.skills.progress(SkillKind::Carrying), Some(SkillProgress { level: 2, exp: 9999 }));
}

#[test]
fn a_grant_is_weighed_against_the_reference_level() {
    let mut c = chara();
    c.skills.learn(SkillKind::BareHands, 5);
    // at or above the skill's level: all of it
    assert_eq!(c.add_skill_exp(SkillKind::BareHands, 100, 5), (false, 100));
    assert_eq!(c.add_skill_exp(SkillKind::BareHands, 100, 50), (false, 100));
    // three levels below: a quarter
    assert_eq!(c.add_skill_exp(SkillKind::BareHands, 100, 2), (false, 25));
    // five levels below: a sixth, rounded down
    assert_eq!(c.add_skill_exp(SkillKind::BareHands, 100, 0), (false, 16));
    assert_eq!(
        c.skills.progress(SkillKind::BareHands),
        Some(SkillProgress { level: 5, exp: 241 })
    );
}

#[test]
fn the_highest_level_takes_experience_short_of_the_next() {
    let mut s = SkillList::new();
    s.learn(SkillKind::Defence, u32::MAX);
    assert_eq!(s.add_exp(SkillKind::Defence, 9000, u32::MAX), (false, 9000));
    assert_eq!(s.add_exp(SkillKind::Defence, 9000, u32::MAX), (false, 999));
    assert_eq!(s.add_exp(SkillKind::Defence, 9000, u32::MAX), (false, 0));
    assert_eq!(
        s.progress(SkillKind::Defence),
        Some(SkillProgress { level: u32::MAX, exp: 9999 })
    );
}

#[test]
fn accrual_never_goes_down() {
    let mut s = SkillList::new();
    s.learn(SkillKind::Evasion, 1);
    let grants: [(u32, u32); 8] =
        [(0, 0), (300, 1), (9999, 0), (1, 7), (10000, 2), (u32::MAX, 0), (77, 3), (5000, 9)];
    let mut before = s.progress(SkillKind::Evasion).unwrap();
    for (add, base) in grants {
        let (up, applied) = s.add_exp(SkillKind::Evasion, add, base);
        let after = s.progress(SkillKind::Evasion).unwrap();
        assert!(total(after) >= total(before));
        assert_eq!(total(after) - total(before), applied as u64);
        assert!(applied <= add);
        assert!(after.level >= before.level);
        assert_eq!(up, after.level > before.level);
        assert!(after.exp < SKILL_EXP_LVUP);
        before = after;
    }
}

#[test]
fn granting_leaves_the_other_skills_alone() {
    let mut s = SkillList::new();
    s.learn(SkillKind::Evasion, 1);
    s.learn(SkillKind::Healing, 2);
    s.learn(SkillKind::Weapon(WeaponKind::Spear), 3);
    s.add_exp(SkillKind::Healing, 10000, 2);
    assert_eq!(s.progress(SkillKind::Evasion), Some(SkillProgress { level: 1, exp: 0 }));
    assert_eq!(s.progress(SkillKind::Healing), Some(SkillProgress { level: 3, exp: 0 }));
    assert_eq!(
        s.progress(SkillKind::Weapon(WeaponKind::Spear)),
        Some(SkillProgress { level: 3, exp: 0 })
    );
    assert_eq!(s.progress(SkillKind::Weapon(WeaponKind::Dagger)), None);
}

#[test]
fn an_attack_trains_the_weapon() {
    let r = rules();
    let mut c = chara();
    c.skills.learn(SkillKind::Weapon(WeaponKind::Axe), 1);
    assert_eq!(c.add_attack_exp(SkillKind::Weapon(WeaponKind::Axe), 1, &r), (false, 120));
    assert_eq!(
        c.skills.progress(SkillKind::Weapon(WeaponKind::Axe)),
        Some(SkillProgress { level: 1, exp: 120 })
    );
}

#[test]
fn an_evaded_attack_trains_evasion() {
    let r = rules();
    let mut c = chara();
    c.skills.learn(SkillKind::Evasion, 3);
    assert_eq!(c.add_evasion_exp(1, &r), (false, 23));
    assert_eq!(c.add_evasion_exp(3, &r), (false, 70));
}

#[test]
fn damage_trains_endurance_by_its_share_of_the_maximum() {
    let r = rules();
    let mut c = chara();
    c.skills.learn(SkillKind::Endurance, 1);
    // 25 of 100 hit points at a rate of 1000
    assert_eq!(c.add_damage_exp(25, 1, &r), (false, 250));
    // 1 of 300 at a rate of 1000: 3.33
    c.attr.max_hp = 300;
    assert_eq!(c.add_damage_exp(1, 1, &r), (false, 3));
    // no damage, or healing in disguise: nothing
    assert_eq!(c.add_damage_exp(0, 1, &r), (false, 0));
    assert_eq!(c.add_damage_exp(-40, 1, &r), (false, 0));
    assert_eq!(c.skills.progress(SkillKind::Endurance), Some(SkillProgress { level: 1, exp: 253 }));
}

#[test]
fn experience_for_damage_stays_in_range() {
    let mut r = rules();
    r.exp.endurance = u32::MAX;
    let mut c = chara();
    c.attr.max_hp = 1;
    c.skills.learn(SkillKind::Endurance, 1);
    assert_eq!(c.add_damage_exp(i32::MAX, 1, &r), (true, 10000));
}

#[test]
fn regeneration_trains_healing_when_drawn() {
    let r = rules();
    let mut c = chara();
    c.skills.learn(SkillKind::Healing, 6);
    assert_eq!(c.add_healing_exp(&r, false), (false, 0));
    assert_eq!(c.skills.progress(SkillKind::Healing), Some(SkillProgress { level: 6, exp: 0 }));
    assert_eq!(c.add_healing_exp(&r, true), (false, 30));
    assert_eq!(c.skills.progress(SkillKind::Healing), Some(SkillProgress { level: 6, exp: 30 }));
}

#[test]
fn the_main_character_is_known_by_its_trait() {
    let mut c = chara();
    assert!(!c.is_main_character());
    c.traits.push(CharaTrait::Shopkeeper);
    assert!(!c.is_main_character());
    c.traits.push(CharaTrait::MainCharacter);
    c.traits.push(CharaTrait::Sleepless);
    assert!(c.is_main_character());
}
