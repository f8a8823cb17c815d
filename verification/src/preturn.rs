//! The preparation of a character's turn.
//!
//! Before a character acts, its attributes are recomputed, its statuses age
//! by one turn and the expired ones end, poison bites, hit points regenerate
//! or stamina is spent, and at last it is decided whether the character may
//! act at all. Some of these steps belong to the host game: recomputing
//! attributes, ending a status, applying damage, showing progress, drawing
//! random numbers. [`preturn`] therefore works in stages. Each call does
//! what can be done on the character alone and returns a request; the host
//! carries the request out and calls again with the reply, until the request
//! is [`TurnRequest::Finished`]. [`turn_step`] says what every stage does.

use vstd::prelude::*;
use crate::chara::{Chara, CharaEx, CharaId, CharaView};
use crate::numeric::{clamp_i32, div_toward_zero, saturate_i32};
use crate::rules::{Ratio, Rules};
use crate::skill::SkillKind;
use crate::sp::lemma_floor_or_damage;
use crate::status::{
    advance_all, all_advanced, expired_of, partition_expired, surviving_of, CharaStatus,
};

verus! {

/// Why a character takes damage.
#[derive(Clone, Copy, Debug, PartialEq, Eq, Structural)]
pub enum CharaDamageKind {
    Poison,
    Starve,
}

/// How far a task has come: the turns left of the turns needed. The host
/// shows `turn_left / (needed_turn - 1)`.
#[derive(Clone, Copy, Debug, PartialEq, Eq, Structural)]
pub struct WorkProgress {
    pub turn_left: u16,
    pub needed_turn: u16,
}

/// What the statuses of a character ask for in a turn.
#[derive(Clone, Copy, Debug, PartialEq, Eq, Structural)]
pub struct ActiveEffects {
    pub is_poisoned: bool,
    pub work_progress: Option<WorkProgress>,
}

/// Where the preparation of a turn stands.
#[derive(Clone, Copy, Debug, PartialEq, Eq, Structural)]
pub enum TurnStage {
    /// Nothing has been done.
    Start,
    /// The host recomputes the attributes.
    AwaitUpdate,
    /// The host ends the expired statuses.
    AwaitExpiry,
    /// The host applies poison and shows the progress of work.
    AwaitEffects,
    /// The host draws whether hit points regenerate.
    AwaitRegenDraw,
    /// The host rolls the healing die.
    AwaitHealRoll,
    /// The host draws whether regeneration trains healing.
    AwaitExpDraw,
    /// The host applies starvation, or recomputes after a level-up.
    AwaitSettle,
    /// The verdict has been given.
    End,
}

/// What the host is asked to do before the next call.
#[derive(Clone, Debug, PartialEq, Eq)]
pub enum TurnRequest {
    /// Recompute the character's attributes.
    UpdateAttributes,
    /// End these statuses, which have left the character, in this order.
    Expire(Vec<CharaStatus>),
    /// Apply `poison_damage` as poison, then show `work_progress`.
    Effects { poison_damage: Option<i32>, work_progress: Option<WorkProgress> },
    /// Draw `true` with this chance.
    DrawBool(Ratio),
    /// Roll `n` dice of `x` faces and add them up.
    RollDice { n: i32, x: i32 },
    /// Apply `damage` of `kind`.
    Damage { damage: i32, kind: CharaDamageKind },
    /// Announce that `skill` has risen by a level and recompute the
    /// attributes.
    LevelUp { skill: SkillKind },
    /// The turn is prepared; the character may act if `can_act`.
    Finished { can_act: bool },
}

/// A request as a mathematical value.
pub enum TurnRequestView {
    UpdateAttributes,
    Expire(Seq<CharaStatus>),
    Effects { poison_damage: Option<i32>, work_progress: Option<WorkProgress> },
    DrawBool(Ratio),
    RollDice { n: i32, x: i32 },
    Damage { damage: i32, kind: CharaDamageKind },
    LevelUp { skill: SkillKind },
    Finished { can_act: bool },
}

impl View for TurnRequest {
    type V = TurnRequestView;

    open spec fn view(&self) -> TurnRequestView {
        match *self {
            TurnRequest::UpdateAttributes => TurnRequestView::UpdateAttributes,
            TurnRequest::Expire(expired) => TurnRequestView::Expire(expired@),
            TurnRequest::Effects { poison_damage, work_progress } => TurnRequestView::Effects {
                poison_damage,
                work_progress,
            },
            TurnRequest::DrawBool(chance) => TurnRequestView::DrawBool(chance),
            TurnRequest::RollDice { n, x } => TurnRequestView::RollDice { n, x },
            TurnRequest::Damage { damage, kind } => TurnRequestView::Damage { damage, kind },
            TurnRequest::LevelUp { skill } => TurnRequestView::LevelUp { skill },
            TurnRequest::Finished { can_act } => TurnRequestView::Finished { can_act },
        }
    }
}

/// The host's answer to a request. A stage that waits for a draw takes any
/// reply but `Drawn(true)` for a draw that came out false; the stage that
/// waits for a roll takes any reply but a roll for no healing at all.
#[derive(Clone, Copy, Debug, PartialEq, Eq, Structural)]
pub enum TurnReply {
    /// The request has been carried out.
    Done,
    /// What was drawn.
    Drawn(bool),
    /// What the dice show.
    Rolled(i32),
}

/// The progress of the last task in `s`, if there is a task.
pub open spec fn last_work(s: Seq<CharaStatus>) -> Option<WorkProgress>
    decreases s.len(),
{
    if s.len() == 0 {
        None
    } else {
        match s.last() {
            CharaStatus::Work { turn_left, needed_turn, .. } => Some(
                WorkProgress { turn_left, needed_turn },
            ),
            _ => last_work(s.drop_last()),
        }
    }
}

/// The faces of the healing die at `level` of the healing skill: the level
/// times the factor, rounded down and held in 32 bits.
pub open spec fn regen_bound(level: u32, factor: Ratio) -> int
    recommends
        factor.valid(),
{
    clamp_i32(factor.scale(level as int))
}

impl CharaView {
    /// The character may act: it is not down, and neither asleep nor at
    /// work. With no hit points left it still acts.
    pub open spec fn can_act(&self) -> bool {
        &&& self.hp >= 0
        &&& forall|i: int|
            0 <= i < self.status.len() ==> !(#[trigger] self.status[i]).spec_blocks_acting()
    }

    /// Poison is among the statuses.
    pub open spec fn is_poisoned(&self) -> bool {
        self.status.contains(CharaStatus::Poisoned)
    }

    /// What the statuses ask for this turn.
    pub open spec fn active_effects(&self) -> ActiveEffects {
        ActiveEffects { is_poisoned: self.is_poisoned(), work_progress: last_work(self.status) }
    }

    /// What poison takes in a turn: a twentieth of the maximum hit points,
    /// rounded toward zero.
    pub open spec fn poison_damage(&self) -> int {
        div_toward_zero(self.attr.max_hp as int, 20)
    }

    /// Hit points can regenerate: some are missing, and SP is above the
    /// starving line.
    pub open spec fn regen_eligible(&self, rules: Rules) -> bool {
        self.hp < self.attr.max_hp && self.sp > rules.chara.sp_starving
    }

    /// The character one turn later: every status has aged by a turn, and
    /// those that ran out are gone.
    pub open spec fn aged(&self) -> CharaView {
        CharaView { status: surviving_of(all_advanced(self.status, 1)), ..*self }
    }

    /// The statuses that run out with this turn.
    pub open spec fn expiring(&self) -> Seq<CharaStatus> {
        expired_of(all_advanced(self.status, 1))
    }
}

/// What a call of [`preturn`] leaves: the character, the stage and the
/// request.
pub struct TurnStep {
    pub chara: CharaView,
    pub stage: TurnStage,
    pub request: TurnRequestView,
}

/// The end of a turn's preparation for `c`: nothing changes any more, and the
/// verdict is given.
pub open spec fn finish(c: CharaView) -> TurnStep {
    TurnStep {
        chara: c,
        stage: TurnStage::End,
        request: TurnRequestView::Finished { can_act: c.can_act() },
    }
}

/// A turn of regeneration after the roll: SP is spent at the rate of
/// regeneration, whatever that costs, and the draw for experience is asked
/// for.
pub open spec fn regen_spent(c: CharaView, cid: CharaId, rules: Rules) -> TurnStep {
    TurnStep {
        chara: c.sp_adjusted(rules.chara, -(rules.chara.sp_consumption_regen as int), cid),
        stage: TurnStage::AwaitExpDraw,
        request: TurnRequestView::DrawBool(rules.exp.healing_probability),
    }
}

/// One call of [`preturn`] on the character `c` at `stage` with `reply`.
///
/// In this order: the attributes are recomputed; the statuses age by a turn
/// and the expired ones leave the character and are handed out; poison and
/// the progress of work are read from the statuses that remain; then, if hit
/// points can regenerate, a draw decides whether they do, a roll by how
/// much, SP is spent at the lower rate and a draw decides whether healing
/// gains experience; if they cannot, SP is spent at the full rate, and what
/// that takes beyond the starving line is handed out as damage; last comes
/// the verdict, on the character as it then is.
pub open spec fn turn_step(
    c: CharaView,
    cid: CharaId,
    rules: Rules,
    stage: TurnStage,
    reply: TurnReply,
) -> TurnStep {
    match stage {
        TurnStage::Start => TurnStep {
            chara: c,
            stage: TurnStage::AwaitUpdate,
            request: TurnRequestView::UpdateAttributes,
        },
        TurnStage::AwaitUpdate => TurnStep {
            chara: c.aged(),
            stage: TurnStage::AwaitExpiry,
            request: TurnRequestView::Expire(c.expiring()),
        },
        TurnStage::AwaitExpiry => TurnStep {
            chara: c,
            stage: TurnStage::AwaitEffects,
            request: TurnRequestView::Effects {
                poison_damage: if c.is_poisoned() {
                    Some(c.poison_damage() as i32)
                } else {
                    None
                },
                work_progress: last_work(c.status),
            },
        },
        TurnStage::AwaitEffects => if c.regen_eligible(rules) {
            TurnStep {
                chara: c,
                stage: TurnStage::AwaitRegenDraw,
                request: TurnRequestView::DrawBool(rules.chara.hp_regeneration_probability),
            }
        } else {
            let spent = c.sp_adjusted(rules.chara, -(rules.chara.sp_consumption as int), cid);
            match c.sp_damage(rules.chara, -(rules.chara.sp_consumption as int)) {
                Some(damage) => TurnStep {
                    chara: spent,
                    stage: TurnStage::AwaitSettle,
                    request: TurnRequestView::Damage {
                        damage: damage as i32,
                        kind: CharaDamageKind::Starve,
                    },
                },
                None => finish(spent),
            }
        },
        TurnStage::AwaitRegenDraw => if reply == TurnReply::Drawn(true) {
            TurnStep {
                chara: c,
                stage: TurnStage::AwaitHealRoll,
                request: TurnRequestView::RollDice {
                    n: 1,
                    x: regen_bound(
                        c.skill_level(SkillKind::Healing),
                        rules.chara.hp_regeneration_factor,
                    ) as i32,
                },
            }
        } else {
            regen_spent(c, cid, rules)
        },
        TurnStage::AwaitHealRoll => match reply {
            TurnReply::Rolled(value) => regen_spent(c.healed(value as int), cid, rules),
            _ => regen_spent(c, cid, rules),
        },
        TurnStage::AwaitExpDraw => if reply == TurnReply::Drawn(true) {
            let level = c.skill_level(SkillKind::Healing);
            let trained = c.with_skill_exp(SkillKind::Healing, rules.exp.healing, level);
            if c.skill_exp_outcome(SkillKind::Healing, rules.exp.healing, level).0 {
                TurnStep {
                    chara: trained,
                    stage: TurnStage::AwaitSettle,
                    request: TurnRequestView::LevelUp { skill: SkillKind::Healing },
                }
            } else {
                finish(trained)
            }
        } else {
            finish(c)
        },
        TurnStage::AwaitSettle => finish(c),
        TurnStage::End => finish(c),
    }
}

/// How far a stage is from the start.
pub open spec fn stage_rank(stage: TurnStage) -> nat {
    match stage {
        TurnStage::Start => 0,
        TurnStage::AwaitUpdate => 1,
        TurnStage::AwaitExpiry => 2,
        TurnStage::AwaitEffects => 3,
        TurnStage::AwaitRegenDraw => 4,
        TurnStage::AwaitHealRoll => 5,
        TurnStage::AwaitExpDraw => 6,
        TurnStage::AwaitSettle => 7,
        TurnStage::End => 8,
    }
}

/// The stages follow one another in one direction: every call moves on to a
/// later stage, whatever the character and the reply, until the verdict is
/// given; from then on every call repeats the verdict. The verdict comes with
/// the last stage and only with it.
pub proof fn lemma_stages_advance(
    c: CharaView,
    cid: CharaId,
    rules: Rules,
    stage: TurnStage,
    reply: TurnReply,
)
    ensures
        stage != TurnStage::End ==> stage_rank(turn_step(c, cid, rules, stage, reply).stage)
            > stage_rank(stage),
        stage == TurnStage::End ==> turn_step(c, cid, rules, stage, reply) == finish(c),
        turn_step(c, cid, rules, stage, reply).stage == TurnStage::End <==> turn_step(
            c,
            cid,
            rules,
            stage,
            reply,
        ).request is Finished,
{
}

/// SP that is at or above the starving line stays there through every stage
/// of a turn.
pub proof fn lemma_turn_keeps_floor(
    c: CharaView,
    cid: CharaId,
    rules: Rules,
    stage: TurnStage,
    reply: TurnReply,
)
    requires
        rules.valid(),
        c.sp >= rules.chara.sp_starving,
    ensures
        turn_step(c, cid, rules, stage, reply).chara.sp >= rules.chara.sp_starving,
{
}

/// A character that sleeps does not act, whatever its hit points; nor does
/// one at work.
pub proof fn lemma_sleeper_never_acts(c: CharaView, i: int)
    requires
        0 <= i < c.status.len(),
        c.status[i] is Asleep || c.status[i] is Work,
    ensures
        !c.can_act(),
{
    assert(c.status[i].spec_blocks_acting());
}

/// The starvation path. When a character whose hit points cannot regenerate
/// spends the SP of a turn, one of two things happens. Either the SP is
/// there: then it is spent, no damage is asked for and the verdict follows.
/// Or it would go below the starving line: then SP stops at the line (for any
/// but the player, at the hungry line), and damage by starvation is asked for,
/// four times the maximum hit points for every `sp_max` points that were
/// missing. Neither the damage nor the line is ever skipped. At the line
/// itself every spending is a deficit.
pub proof fn lemma_starvation_path(c: CharaView, cid: CharaId, rules: Rules)
    requires
        rules.valid(),
        i32::MIN <= c.sp <= i32::MAX,
        !c.regen_eligible(rules),
    ensures
        ({
            let spend = rules.chara.sp_consumption as int;
            let step = turn_step(c, cid, rules, TurnStage::AwaitEffects, TurnReply::Done);
            let deficit = rules.chara.sp_starving - (c.sp - spend);
            &&& step.chara.sp >= rules.chara.sp_starving
            &&& deficit > 0 ==> step.stage == TurnStage::AwaitSettle && step.request
                == TurnRequestView::Damage {
                damage: clamp_i32(
                    div_toward_zero(4 * c.attr.max_hp * deficit, rules.chara.sp_max as int),
                ) as i32,
                kind: CharaDamageKind::Starve,
            } && (cid is Player ==> step.chara.sp == rules.chara.sp_starving)
            &&& deficit <= 0 ==> step == finish(step.chara) && (cid is Player && spend >= 0
                ==> step.chara.sp == c.sp - spend)
            &&& c.sp == rules.chara.sp_starving ==> deficit == spend
        }),
{
    lemma_floor_or_damage(
        rules.chara,
        c.attr.max_hp as int,
        c.sp,
        -(rules.chara.sp_consumption as int),
    );
}

/// A level-up asks for one recomputation. The request to announce a level
/// and recompute comes exactly when the draw for experience came out true and
/// the grant lifts healing to its next level; the call after it gives the
/// verdict and asks for nothing more.
pub proof fn lemma_level_up_recomputes_once(
    c: CharaView,
    cid: CharaId,
    rules: Rules,
    reply: TurnReply,
    after: CharaView,
    ack: TurnReply,
)
    ensures
        ({
            let step = turn_step(c, cid, rules, TurnStage::AwaitExpDraw, reply);
            let level = c.skill_level(SkillKind::Healing);
            &&& step.request is LevelUp <==> reply == TurnReply::Drawn(true) && c.skills.contains_key(
                SkillKind::Healing,
            ) && c.skills[SkillKind::Healing].progressed(rules.exp.healing, level).level > level
            &&& step.request is LevelUp ==> step.request == (TurnRequestView::LevelUp {
                skill: SkillKind::Healing,
            }) && step.chara.skill_level(SkillKind::Healing) > level
            &&& !(step.request is LevelUp) ==> step == finish(step.chara) && step.chara.skill_level(
                SkillKind::Healing,
            ) == level
            &&& step.request is LevelUp ==> turn_step(after, cid, rules, step.stage, ack)
                == finish(after)
        }),
{
}

/// Judges whether the character may act: see [`CharaView::can_act`].
pub fn can_act(chara: &Chara) -> (r: bool)
    ensures
        r == chara@.can_act(),
{
    if chara.hp < 0 {
        return false;
    }
    let n = chara.status.len();
    let mut i: usize = 0;
    while i < n
        invariant
            i <= n,
            n == chara.status@.len(),
            forall|j: int| 0 <= j < i ==> !(#[trigger] chara.status@[j]).spec_blocks_acting(),
        decreases n - i,
    {
        if chara.status[i].blocks_acting() {
            assert(chara@.status[i as int].spec_blocks_acting());
            return false;
        }
        i += 1;
    }
    true
}

/// Reads from the statuses whether the character is poisoned, and the
/// progress of its work: that of the last task, if there are several.
pub fn scan_active_effects(chara: &Chara) -> (effects: ActiveEffects)
    ensures
        effects == chara@.active_effects(),
{
    let mut is_poisoned = false;
    let mut work_progress: Option<WorkProgress> = None;
    let n = chara.status.len();
    let mut i: usize = 0;
    while i < n
        invariant
            i <= n,
            n == chara.status@.len(),
            is_poisoned == chara.status@.take(i as int).contains(CharaStatus::Poisoned),
            work_progress == last_work(chara.status@.take(i as int)),
        decreases n - i,
    {
        let s = chara.status[i];
        proof {
            let before = chara.status@.take(i as int);
            let after = chara.status@.take(i + 1);
            chara.status@.lemma_take_succ_push(i as int);
            assert(after.drop_last() =~= before);
            if before.contains(CharaStatus::Poisoned) {
                let j = choose|j: int| 0 <= j < before.len() && before[j] == CharaStatus::Poisoned;
                assert(after[j] == CharaStatus::Poisoned);
            }
            if after.contains(CharaStatus::Poisoned) && s != CharaStatus::Poisoned {
                let j = choose|j: int| 0 <= j < after.len() && after[j] == CharaStatus::Poisoned;
                assert(before[j] == CharaStatus::Poisoned);
            }
        }
        match s {
            CharaStatus::Poisoned => {
                is_poisoned = true;
            },
            CharaStatus::Work { turn_left, needed_turn, .. } => {
                work_progress = Some(WorkProgress { turn_left, needed_turn });
            },
            _ => {},
        }
        i += 1;
    }
    proof {
        chara.status@.lemma_take_len();
    }
    ActiveEffects { is_poisoned, work_progress }
}

/// Computes [`regen_bound`].
fn healing_die(level: u32, factor: Ratio) -> (faces: i32)
    requires
        factor.valid(),
    ensures
        faces == regen_bound(level, factor),
{
    assert(0 <= level * factor.num <= 0xffff_ffff * 0xffff_ffff) by (nonlinear_arith)
        requires
            0 <= level <= 0xffff_ffff,
            0 <= factor.num <= 0xffff_ffff,
    ;
    let scaled: u64 = (level as u64 * factor.num as u64) / factor.den as u64;
    saturate_i32(scaled as i128)
}

/// Spends the SP of a turn of regeneration and asks for the draw that
/// decides on experience.
fn spend_regen(chara: &mut Chara, cid: CharaId, rules: &Rules) -> (next: (TurnStage, TurnRequest))
    requires
        old(chara).wf(),
        rules.valid(),
    ensures
        final(chara).wf(),
        final(chara)@ == regen_spent(old(chara)@, cid, *rules).chara,
        next.0 == regen_spent(old(chara)@, cid, *rules).stage,
        next.1@ == regen_spent(old(chara)@, cid, *rules).request,
{
    let _ = chara.sub_sp(rules.chara.sp_consumption_regen, cid, rules);
    (TurnStage::AwaitExpDraw, TurnRequest::DrawBool(rules.exp.healing_probability))
}

/// Prepares the turn of `chara`, one stage per call: see [`turn_step`].
///
/// The first call is made at [`TurnStage::Start`]; every later call passes
/// the stage that the call before it returned, and the host's reply to the
/// request that came with it. With [`TurnRequest::Finished`] the preparation
/// is over.
pub fn preturn(
    chara: &mut Chara,
    cid: CharaId,
    rules: &Rules,
    stage: TurnStage,
    reply: TurnReply,
) -> (next: (TurnStage, TurnRequest))
    requires
        old(chara).wf(),
        rules.valid(),
    ensures
        final(chara).wf(),
        final(chara)@ == turn_step(old(chara)@, cid, *rules, stage, reply).chara,
        next.0 == turn_step(old(chara)@, cid, *rules, stage, reply).stage,
        next.1@ == turn_step(old(chara)@, cid, *rules, stage, reply).request,
{
    match stage {
        TurnStage::Start => (TurnStage::AwaitUpdate, TurnRequest::UpdateAttributes),
        TurnStage::AwaitUpdate => {
            advance_all(&mut chara.status, 1);
            let expired = partition_expired(&mut chara.status);
            (TurnStage::AwaitExpiry, TurnRequest::Expire(expired))
        },
        TurnStage::AwaitExpiry => {
            let effects = scan_active_effects(chara);
            let poison_damage = if effects.is_poisoned {
                Some(chara.attr.max_hp / 20)
            } else {
                None
            };
            (
                TurnStage::AwaitEffects,
                TurnRequest::Effects { poison_damage, work_progress: effects.work_progress },
            )
        },
        TurnStage::AwaitEffects => {
            if chara.hp < chara.attr.max_hp && chara.sp > rules.chara.sp_starving {
                (
                    TurnStage::AwaitRegenDraw,
                    TurnRequest::DrawBool(rules.chara.hp_regeneration_probability),
                )
            } else {
                match chara.sub_sp(rules.chara.sp_consumption, cid, rules) {
                    Some(damage) => (
                        TurnStage::AwaitSettle,
                        TurnRequest::Damage { damage, kind: CharaDamageKind::Starve },
                    ),
                    None => (TurnStage::End, TurnRequest::Finished { can_act: can_act(chara) }),
                }
            }
        },
        TurnStage::AwaitRegenDraw => {
            match reply {
                TurnReply::Drawn(true) => {
                    let lv = chara.skills.get(SkillKind::Healing);
                    let x = healing_die(lv, rules.chara.hp_regeneration_factor);
                    (TurnStage::AwaitHealRoll, TurnRequest::RollDice { n: 1, x })
                },
                _ => spend_regen(chara, cid, rules),
            }
        },
        TurnStage::AwaitHealRoll => {
            match reply {
                TurnReply::Rolled(v) => {
                    chara.heal(v);
                },
                _ => {},
            }
            spend_regen(chara, cid, rules)
        },
        TurnStage::AwaitExpDraw => {
            let drawn = match reply {
                TurnReply::Drawn(b) => b,
                _ => false,
            };
            let (level_up, _) = chara.add_healing_exp(rules, drawn);
            if level_up {
                (TurnStage::AwaitSettle, TurnRequest::LevelUp { skill: SkillKind::Healing })
            } else {
                (TurnStage::End, TurnRequest::Finished { can_act: can_act(chara) })
            }
        },
        TurnStage::AwaitSettle | TurnStage::End => (
            TurnStage::End,
            TurnRequest::Finished { can_act: can_act(chara) },
        ),
    }
}

} // verus!
