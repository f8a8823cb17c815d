//! The character: what the turn logic reads and changes of it, and the
//! operations on one character.

use vstd::prelude::*;
use crate::numeric::{
    clamp_i32, clamp_u32, div_toward_zero, divide_toward_zero, saturate_i32, saturate_u32,
};
use crate::rules::{CharaRules, Rules};
use crate::skill::{SkillKind, SkillList, SkillProgress};
use crate::sp::{sp_after, sp_status_after, starvation_damage};
use crate::status::{add_status, remove_sp_status, CharaStatus};

verus! {

/// The waiting time between two turns is this, divided by the speed.
pub const WAIT_TIME_NUMERATOR: u32 = 100000;

/// Names a character of the game. The player is told from all the others.
#[derive(Clone, Copy, Debug, PartialEq, Eq, Hash, Structural)]
pub enum CharaId {
    /// The character that the player leads.
    Player,
    /// A companion of the player.
    Ally { id: u32 },
    /// A character that belongs to a site.
    OnSite { id: u32 },
    /// A character that lives on one map.
    OnMap { mid: u32, n: u32 },
}

/// A lasting trait of a character.
#[derive(Clone, Copy, Debug, PartialEq, Eq, Hash, Structural)]
pub enum CharaTrait {
    /// The hero of the story.
    MainCharacter,
    /// Keeps a shop.
    Shopkeeper,
    /// Never sleeps.
    Sleepless,
}

/// The attributes that follow from everything else about a character. The
/// host game recomputes them; the turn logic reads them.
#[derive(Clone, Copy, Debug, PartialEq, Eq, Structural)]
pub struct CharaAttributes {
    pub max_hp: i32,
    pub spd: u16,
}

/// A character, as far as a turn's preparation is concerned.
#[derive(Clone, Debug)]
pub struct Chara {
    /// Hit points; below zero the character is down.
    pub hp: i32,
    /// Stamina points.
    pub sp: i32,
    pub attr: CharaAttributes,
    pub status: Vec<CharaStatus>,
    pub skills: SkillList,
    pub traits: Vec<CharaTrait>,
    /// Time until the next turn.
    pub wait_time: u32,
}

/// A character as a mathematical value.
pub struct CharaView {
    pub hp: int,
    pub sp: int,
    pub attr: CharaAttributes,
    pub status: Seq<CharaStatus>,
    pub skills: Map<SkillKind, SkillProgress>,
    pub traits: Seq<CharaTrait>,
    pub wait_time: int,
}

impl View for Chara {
    type V = CharaView;

    open spec fn view(&self) -> CharaView {
        CharaView {
            hp: self.hp as int,
            sp: self.sp as int,
            attr: self.attr,
            status: self.status@,
            skills: self.skills@,
            traits: self.traits@,
            wait_time: self.wait_time as int,
        }
    }
}

/// The experience that `damage` earns a character of `max_hp` hit points,
/// where damage equal to `max_hp` earns `rate`: `damage * rate / max_hp`,
/// rounded toward zero and held in 32 unsigned bits.
pub open spec fn damage_exp(damage: int, max_hp: int, rate: int) -> int
    recommends
        max_hp > 0,
{
    clamp_u32(div_toward_zero(damage * rate, max_hp))
}

impl CharaView {
    /// The hero of the story is among the traits.
    pub open spec fn is_main_character(&self) -> bool {
        self.traits.contains(CharaTrait::MainCharacter)
    }

    /// The level of `kind`: 0 for a skill not learned.
    pub open spec fn skill_level(&self, kind: SkillKind) -> u32 {
        if self.skills.contains_key(kind) {
            self.skills[kind].level
        } else {
            0
        }
    }

    /// The character after a grant of `add_exp` to `kind`, weighed against
    /// `base_level`. Only a learned skill takes experience.
    pub open spec fn with_skill_exp(&self, kind: SkillKind, add_exp: u32, base_level: u32)
        -> CharaView {
        if self.skills.contains_key(kind) {
            CharaView {
                skills: self.skills.insert(
                    kind,
                    self.skills[kind].progressed(add_exp, base_level),
                ),
                ..*self
            }
        } else {
            *self
        }
    }

    /// Whether that grant raises the level, and by how much the skill's
    /// experience grows.
    pub open spec fn skill_exp_outcome(&self, kind: SkillKind, add_exp: u32, base_level: u32) -> (
        bool,
        int,
    ) {
        if self.skills.contains_key(kind) {
            let before = self.skills[kind];
            let after = before.progressed(add_exp, base_level);
            (after.level > before.level, after.total() - before.total())
        } else {
            (false, 0)
        }
    }

    /// The character after a change of SP by `delta`: see [`sp_after`] and
    /// [`sp_status_after`].
    pub open spec fn sp_adjusted(&self, r: CharaRules, delta: int, cid: CharaId) -> CharaView {
        CharaView {
            sp: sp_after(r, self.sp, delta, cid),
            status: sp_status_after(r, self.status, self.sp, delta, cid),
            ..*self
        }
    }

    /// The damage of that change: see [`starvation_damage`].
    pub open spec fn sp_damage(&self, r: CharaRules, delta: int) -> Option<int> {
        starvation_damage(r, self.attr.max_hp as int, self.sp, delta)
    }

    /// The character with `value` more hit points, but no more than the
    /// maximum (and no fewer than 32 bits hold).
    pub open spec fn healed(&self, value: int) -> CharaView {
        CharaView {
            hp: if self.hp + value > self.attr.max_hp {
                self.attr.max_hp as int
            } else {
                clamp_i32(self.hp + value)
            },
            ..*self
        }
    }

    /// The character with its waiting time set anew from its speed.
    pub open spec fn rested(&self) -> CharaView
        recommends
            self.attr.spd > 0,
    {
        CharaView { wait_time: WAIT_TIME_NUMERATOR as int / self.attr.spd as int, ..*self }
    }
}

/// What can be asked of and done to one character.
pub trait CharaEx {
    /// The character as a mathematical value.
    spec fn model(&self) -> CharaView;

    /// The character's skill list is well formed.
    spec fn wf(&self) -> bool;

    /// Tests whether this is the main character.
    fn is_main_character(&self) -> (r: bool)
        ensures
            r == self.model().is_main_character(),
    ;

    /// Grants experience to a skill: see [`CharaView::with_skill_exp`].
    /// Returns whether the level went up, and by how much the experience grew.
    /// After a level-up the attributes are out of date: the caller has them
    /// recomputed, once.
    fn add_skill_exp(&mut self, kind: SkillKind, add_exp: u32, base_level: u32) -> (result: (
        bool,
        u32,
    ))
        requires
            old(self).wf(),
        ensures
            final(self).wf(),
            final(self).model() == old(self).model().with_skill_exp(kind, add_exp, base_level),
            result.0 == old(self).model().skill_exp_outcome(kind, add_exp, base_level).0,
            result.1 == old(self).model().skill_exp_outcome(kind, add_exp, base_level).1,
    ;

    /// Grants the experience of an attack with `kind` on a target of
    /// `target_level`.
    fn add_attack_exp(&mut self, kind: SkillKind, target_level: u32, rules: &Rules) -> (result: (
        bool,
        u32,
    ))
        requires
            old(self).wf(),
        ensures
            final(self).wf(),
            final(self).model() == old(self).model().with_skill_exp(
                kind,
                rules.exp.attack,
                target_level,
            ),
            result.0 == old(self).model().skill_exp_outcome(
                kind,
                rules.exp.attack,
                target_level,
            ).0,
            result.1 == old(self).model().skill_exp_outcome(
                kind,
                rules.exp.attack,
                target_level,
            ).1,
    ;

    /// Grants endurance the experience of `damage` taken from an attacker of
    /// `attacker_level`: see [`damage_exp`].
    fn add_damage_exp(&mut self, damage: i32, attacker_level: u32, rules: &Rules) -> (result: (
        bool,
        u32,
    ))
        requires
            old(self).wf(),
            old(self).model().attr.max_hp > 0,
        ensures
            final(self).wf(),
            final(self).model() == old(self).model().with_skill_exp(
                SkillKind::Endurance,
                damage_exp(
                    damage as int,
                    old(self).model().attr.max_hp as int,
                    rules.exp.endurance as int,
                ) as u32,
                attacker_level,
            ),
            result.0 == old(self).model().skill_exp_outcome(
                SkillKind::Endurance,
                damage_exp(
                    damage as int,
                    old(self).model().attr.max_hp as int,
                    rules.exp.endurance as int,
                ) as u32,
                attacker_level,
            ).0,
            result.1 == old(self).model().skill_exp_outcome(
                SkillKind::Endurance,
                damage_exp(
                    damage as int,
                    old(self).model().attr.max_hp as int,
                    rules.exp.endurance as int,
                ) as u32,
                attacker_level,
            ).1,
    ;

    /// Grants evasion the experience of an evaded attack by an attacker of
    /// `attacker_level`.
    fn add_evasion_exp(&mut self, attacker_level: u32, rules: &Rules) -> (result: (bool, u32))
        requires
            old(self).wf(),
        ensures
            final(self).wf(),
            final(self).model() == old(self).model().with_skill_exp(
                SkillKind::Evasion,
                rules.exp.evasion,
                attacker_level,
            ),
            result.0 == old(self).model().skill_exp_outcome(
                SkillKind::Evasion,
                rules.exp.evasion,
                attacker_level,
            ).0,
            result.1 == old(self).model().skill_exp_outcome(
                SkillKind::Evasion,
                rules.exp.evasion,
                attacker_level,
            ).1,
    ;

    /// Grants healing the experience of a turn of regeneration, if `drawn`
    /// says that the turn trains the skill; the caller draws it with the
    /// chance `rules.exp.healing_probability`. The grant is weighed against the
    /// healing level itself.
    fn add_healing_exp(&mut self, rules: &Rules, drawn: bool) -> (result: (bool, u32))
        requires
            old(self).wf(),
        ensures
            final(self).wf(),
            drawn ==> final(self).model() == old(self).model().with_skill_exp(
                SkillKind::Healing,
                rules.exp.healing,
                old(self).model().skill_level(SkillKind::Healing),
            ),
            drawn ==> result.0 == old(self).model().skill_exp_outcome(
                SkillKind::Healing,
                rules.exp.healing,
                old(self).model().skill_level(SkillKind::Healing),
            ).0,
            drawn ==> result.1 == old(self).model().skill_exp_outcome(
                SkillKind::Healing,
                rules.exp.healing,
                old(self).model().skill_level(SkillKind::Healing),
            ).1,
            !drawn ==> final(self).model() == old(self).model() && result == (false, 0u32),
    ;

    /// Changes SP by `v`: see [`CharaView::sp_adjusted`]. Returns the damage
    /// that the character is to take if the change went below the starving
    /// line. SP is never below that line afterwards.
    fn add_sp(&mut self, v: i32, cid: CharaId, rules: &Rules) -> (damage: Option<i32>)
        requires
            rules.valid(),
        ensures
            final(self).wf() == old(self).wf(),
            final(self).model() == old(self).model().sp_adjusted(rules.chara, v as int, cid),
            damage is Some == old(self).model().sp_damage(rules.chara, v as int) is Some,
            damage is Some ==> damage->0 == old(self).model().sp_damage(
                rules.chara,
                v as int,
            )->0,
            final(self).model().sp >= rules.chara.sp_starving,
    ;

    /// Changes SP by `-v`: see [`CharaEx::add_sp`].
    fn sub_sp(&mut self, v: i32, cid: CharaId, rules: &Rules) -> (damage: Option<i32>)
        requires
            rules.valid(),
        ensures
            final(self).wf() == old(self).wf(),
            final(self).model() == old(self).model().sp_adjusted(rules.chara, -(v as int), cid),
            damage is Some == old(self).model().sp_damage(rules.chara, -(v as int)) is Some,
            damage is Some ==> damage->0 == old(self).model().sp_damage(
                rules.chara,
                -(v as int),
            )->0,
            final(self).model().sp >= rules.chara.sp_starving,
    ;

    /// Heals by `value` hit points, up to the maximum.
    fn heal(&mut self, value: i32)
        ensures
            final(self).wf() == old(self).wf(),
            final(self).model() == old(self).model().healed(value as int),
    ;

    /// Sets the waiting time anew from the speed.
    fn reset_wait_time(&mut self)
        requires
            old(self).model().attr.spd > 0,
        ensures
            final(self).wf() == old(self).wf(),
            final(self).model() == old(self).model().rested(),
    ;

    /// The level of a skill and what is to be added to it. Nothing modifies
    /// levels yet: the second number is 0.
    fn skill_level(&self, kind: SkillKind) -> (r: (u32, i32))
        requires
            self.wf(),
        ensures
            r.0 == self.model().skill_level(kind),
            r.1 == 0,
    ;
}

/// Changes the SP of `chara` by `delta`: the amount, the statuses of hunger
/// and the damage are those of [`CharaView::sp_adjusted`] and
/// [`CharaView::sp_damage`].
pub(crate) fn adjust_sp(chara: &mut Chara, delta: i64, cid: CharaId, r: &CharaRules) -> (damage:
    Option<i32>)
    requires
        r.valid(),
        -0x8000_0000 <= delta <= 0x8000_0000,
    ensures
        final(chara).skills == old(chara).skills,
        final(chara)@ == old(chara)@.sp_adjusted(*r, delta as int, cid),
        damage is Some == old(chara)@.sp_damage(*r, delta as int) is Some,
        damage is Some ==> damage->0 == old(chara)@.sp_damage(*r, delta as int)->0,
        final(chara).sp >= r.sp_starving,
{
    let old_sp = chara.sp;
    let sum: i64 = old_sp as i64 + delta;
    let mut damage: Option<i32> = None;
    let new_sp: i32 = if sum < r.sp_starving as i64 {
        let deficit: i64 = r.sp_starving as i64 - sum;
        damage = Some(deficit_damage(chara.attr.max_hp, deficit, r.sp_max));
        r.sp_starving
    } else if sum > i32::MAX as i64 {
        i32::MAX
    } else {
        sum as i32
    };
    chara.sp = new_sp;
    let ghost before = chara.status@;
    match cid {
        CharaId::Player => {
            if delta < 0 {
                if new_sp <= r.sp_hungry && old_sp > r.sp_hungry {
                    add_status(&mut chara.status, CharaStatus::Hungry);
                }
                if new_sp <= r.sp_weak && old_sp > r.sp_weak {
                    add_status(&mut chara.status, CharaStatus::Weak);
                }
                if new_sp <= r.sp_starving && old_sp > r.sp_starving {
                    add_status(&mut chara.status, CharaStatus::Starving);
                }
                proof {
                    crate::sp::lemma_with_status_displaces(
                        before,
                        CharaStatus::Hungry,
                        CharaStatus::Weak,
                    );
                    crate::sp::lemma_with_status_displaces(
                        before,
                        CharaStatus::Hungry,
                        CharaStatus::Starving,
                    );
                    crate::sp::lemma_with_status_displaces(
                        before,
                        CharaStatus::Weak,
                        CharaStatus::Starving,
                    );
                }
            } else if delta > 0 {
                if new_sp > r.sp_hungry && old_sp <= r.sp_hungry {
                    remove_sp_status(&mut chara.status);
                }
                if new_sp > r.sp_weak && old_sp <= r.sp_weak {
                    add_status(&mut chara.status, CharaStatus::Weak);
                }
                proof {
                    crate::sp::lemma_with_status_displaces(
                        before,
                        CharaStatus::Weak,
                        CharaStatus::Weak,
                    );
                }
            }
        },
        _ => {
            // Only the player goes hungry.
            if new_sp < r.sp_hungry {
                chara.sp = r.sp_hungry;
            }
        },
    }
    damage
}

/// The damage of a deficit of `deficit` SP: four times `max_hp` for every
/// `sp_max` points, rounded toward zero and held in 32 bits.
fn deficit_damage(max_hp: i32, deficit: i64, sp_max: i32) -> (damage: i32)
    requires
        sp_max > 0,
        0 < deficit <= 0x2_0000_0000,
    ensures
        damage == clamp_i32(div_toward_zero(4 * max_hp * deficit, sp_max as int)),
{
    assert(-0x4_0000_0000_0000_0000 <= max_hp * deficit <= 0x4_0000_0000_0000_0000)
        by (nonlinear_arith)
        requires
            -0x8000_0000 <= max_hp <= 0x8000_0000,
            0 < deficit <= 0x2_0000_0000,
    ;
    assert(4 * (max_hp * deficit) == 4 * max_hp * deficit) by (nonlinear_arith);
    let product: i128 = 4 * (max_hp as i128 * deficit as i128);
    saturate_i32(divide_toward_zero(product, sp_max as i128))
}

impl CharaEx for Chara {
    open spec fn model(&self) -> CharaView {
        self@
    }

    open spec fn wf(&self) -> bool {
        self.skills.wf()
    }

    fn is_main_character(&self) -> (r: bool) {
        let n = self.traits.len();
        let mut i: usize = 0;
        while i < n
            invariant
                i <= n,
                n == self.traits@.len(),
                forall|j: int| 0 <= j < i ==> self.traits@[j] != CharaTrait::MainCharacter,
            decreases n - i,
        {
            if self.traits[i] == CharaTrait::MainCharacter {
                return true;
            }
            i += 1;
        }
        false
    }

    fn add_skill_exp(&mut self, kind: SkillKind, add_exp: u32, base_level: u32) -> (result: (
        bool,
        u32,
    )) {
        self.skills.add_exp(kind, add_exp, base_level)
    }

    fn add_attack_exp(&mut self, kind: SkillKind, target_level: u32, rules: &Rules) -> (result: (
        bool,
        u32,
    )) {
        self.add_skill_exp(kind, rules.exp.attack, target_level)
    }

    fn add_damage_exp(&mut self, damage: i32, attacker_level: u32, rules: &Rules) -> (result: (
        bool,
        u32,
    )) {
        assert(-0x8000_0000_0000_0000 <= damage * rules.exp.endurance <= 0x8000_0000_0000_0000)
            by (nonlinear_arith)
            requires
                -0x8000_0000 <= damage <= 0x8000_0000,
                0 <= rules.exp.endurance <= 0x1_0000_0000,
        ;
        let product: i128 = damage as i128 * rules.exp.endurance as i128;
        let exp = saturate_u32(divide_toward_zero(product, self.attr.max_hp as i128));
        self.add_skill_exp(SkillKind::Endurance, exp, attacker_level)
    }

    fn add_evasion_exp(&mut self, attacker_level: u32, rules: &Rules) -> (result: (bool, u32)) {
        self.add_skill_exp(SkillKind::Evasion, rules.exp.evasion, attacker_level)
    }

    fn add_healing_exp(&mut self, rules: &Rules, drawn: bool) -> (result: (bool, u32)) {
        let lv = self.skills.get(SkillKind::Healing);
        if drawn {
            self.add_skill_exp(SkillKind::Healing, rules.exp.healing, lv)
        } else {
            (false, 0)
        }
    }

    fn add_sp(&mut self, v: i32, cid: CharaId, rules: &Rules) -> (damage: Option<i32>) {
        adjust_sp(self, v as i64, cid, &rules.chara)
    }

    fn sub_sp(&mut self, v: i32, cid: CharaId, rules: &Rules) -> (damage: Option<i32>) {
        adjust_sp(self, -(v as i64), cid, &rules.chara)
    }

    fn heal(&mut self, value: i32) {
        let sum: i64 = self.hp as i64 + value as i64;
        if sum > self.attr.max_hp as i64 {
            self.hp = self.attr.max_hp;
        } else {
            self.hp = saturate_i32(sum as i128);
        }
    }

    fn reset_wait_time(&mut self) {
        self.wait_time = WAIT_TIME_NUMERATOR / self.attr.spd as u32;
    }

    fn skill_level(&self, kind: SkillKind) -> (r: (u32, i32)) {
        let lv = self.skills.get(kind);
        let adj: i32 = 0;
        (lv, adj)
    }
}

} // verus!
