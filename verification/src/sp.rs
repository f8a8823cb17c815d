//! The stamina resource: what a change of SP does to the amount, to the
//! statuses of hunger, and to the character's health.
//!
//! SP never stays below the starving line: what a change would take beyond it
//! is turned into damage. The statuses of hunger follow the player's SP with
//! hysteresis: a status is set when SP crosses its line, not while SP stays
//! beyond it.

use vstd::prelude::*;
use crate::chara::CharaId;
use crate::numeric::{clamp_i32, div_toward_zero};
use crate::rules::CharaRules;
use crate::status::{
    lemma_occurrences_push, occurrences, sp_status_of, with_status, without_sp_status,
    CharaStatus,
};

verus! {

/// SP after a change by `delta`, before the kind of character is looked at:
/// the sum, held between the starving line and the top of the 32-bit range.
/// The lines of hunger are tested against this amount.
pub open spec fn sp_floored(r: CharaRules, sp: int, delta: int) -> int {
    if sp + delta < r.sp_starving {
        r.sp_starving as int
    } else if sp + delta > i32::MAX {
        i32::MAX as int
    } else {
        sp + delta
    }
}

/// SP after a change by `delta`. The player keeps [`sp_floored`]; any other
/// character is never left below the hungry line.
pub open spec fn sp_after(r: CharaRules, sp: int, delta: int, cid: CharaId) -> int {
    let new_sp = sp_floored(r, sp, delta);
    if cid is Player || new_sp >= r.sp_hungry {
        new_sp
    } else {
        r.sp_hungry as int
    }
}

/// The damage of a change by `delta`: none while the sum stays at or above
/// the starving line; below it, four times the maximum hit points for every
/// `sp_max` points of deficit, rounded toward zero and held in 32 bits.
pub open spec fn starvation_damage(r: CharaRules, max_hp: int, sp: int, delta: int) -> Option<
    int,
> {
    if sp + delta < r.sp_starving {
        Some(
            clamp_i32(
                div_toward_zero(4 * max_hp * (r.sp_starving - (sp + delta)), r.sp_max as int),
            ),
        )
    } else {
        None
    }
}

/// The statuses after a change of SP by `delta` from `sp`.
///
/// Only the player shows hunger. When SP goes down, the deepest line that it
/// crosses (from above the line to the line or below) sets its status:
/// starving, weak or hungry. When SP goes up and rises above the weak line
/// from the line or below, the status is weak, however far SP rises; when it
/// rises above the hungry line from between the two lines, the statuses of
/// hunger are taken away. Otherwise nothing changes.
pub open spec fn sp_status_after(
    r: CharaRules,
    status: Seq<CharaStatus>,
    sp: int,
    delta: int,
    cid: CharaId,
) -> Seq<CharaStatus> {
    let new_sp = sp_floored(r, sp, delta);
    if !(cid is Player) {
        status
    } else if delta < 0 {
        if new_sp <= r.sp_starving < sp {
            with_status(status, CharaStatus::Starving)
        } else if new_sp <= r.sp_weak < sp {
            with_status(status, CharaStatus::Weak)
        } else if new_sp <= r.sp_hungry < sp {
            with_status(status, CharaStatus::Hungry)
        } else {
            status
        }
    } else if delta > 0 {
        if sp <= r.sp_weak < new_sp {
            with_status(status, CharaStatus::Weak)
        } else if sp <= r.sp_hungry < new_sp {
            without_sp_status(status)
        } else {
            status
        }
    } else {
        status
    }
}

/// SP and statuses of the player after each change of `deltas` in turn.
pub open spec fn after_changes(
    r: CharaRules,
    sp: int,
    status: Seq<CharaStatus>,
    deltas: Seq<int>,
) -> (int, Seq<CharaStatus>)
    decreases deltas.len(),
{
    if deltas.len() == 0 {
        (sp, status)
    } else {
        let (sp1, status1) = after_changes(r, sp, status, deltas.drop_last());
        (
            sp_after(r, sp1, deltas.last(), CharaId::Player),
            sp_status_after(r, status1, sp1, deltas.last(), CharaId::Player),
        )
    }
}

/// Taking the statuses of hunger away twice is taking them away once.
pub proof fn lemma_without_sp_status_twice(s: Seq<CharaStatus>)
    ensures
        without_sp_status(without_sp_status(s)) == without_sp_status(s),
        sp_status_of(without_sp_status(s)) == Seq::<CharaStatus>::empty(),
    decreases s.len(),
{
    reveal(Seq::filter);
    if s.len() > 0 {
        lemma_without_sp_status_twice(s.drop_last());
        let kept = without_sp_status(s.drop_last());
        if !s.last().spec_about_sp() {
            kept.lemma_filter_push(s.last(), |x: CharaStatus| !x.spec_about_sp());
            kept.lemma_filter_push(s.last(), |x: CharaStatus| x.spec_about_sp());
        }
    }
}

/// One status of hunger set after another leaves the second alone.
pub proof fn lemma_with_status_displaces(s: Seq<CharaStatus>, a: CharaStatus, b: CharaStatus)
    requires
        a.spec_about_sp(),
        b.spec_about_sp(),
    ensures
        with_status(with_status(s, a), b) == with_status(s, b),
        with_status(without_sp_status(s), b) == with_status(s, b),
        sp_status_of(with_status(s, b)) == seq![b],
{
    lemma_without_sp_status_twice(s);
    let kept = without_sp_status(s);
    kept.lemma_filter_push(a, |x: CharaStatus| !x.spec_about_sp());
    kept.lemma_filter_push(b, |x: CharaStatus| x.spec_about_sp());
}

/// A list without statuses of hunger holds none of them.
pub proof fn lemma_no_hunger_left(s: Seq<CharaStatus>, x: CharaStatus)
    requires
        x.spec_about_sp(),
    ensures
        occurrences(without_sp_status(s), x) == 0,
    decreases s.len(),
{
    reveal(Seq::filter);
    if s.len() > 0 {
        lemma_no_hunger_left(s.drop_last(), x);
        if !s.last().spec_about_sp() {
            lemma_occurrences_push(without_sp_status(s.drop_last()), s.last(), x);
        }
    }
}

/// Setting a status of hunger makes it the only one.
pub proof fn lemma_occurrences_of_hunger(s: Seq<CharaStatus>, set: CharaStatus, x: CharaStatus)
    requires
        set.spec_about_sp(),
        x.spec_about_sp(),
    ensures
        occurrences(without_sp_status(s), x) == 0,
        occurrences(with_status(s, set), x) == if set == x {
            1nat
        } else {
            0nat
        },
{
    lemma_no_hunger_left(s, x);
    lemma_occurrences_push(without_sp_status(s), set, x);
}

/// Whatever the change, SP is not below the starving line afterwards.
pub proof fn lemma_sp_never_below_floor(r: CharaRules, sp: int, delta: int, cid: CharaId)
    requires
        r.valid(),
    ensures
        sp_after(r, sp, delta, cid) >= r.sp_starving,
        sp_floored(r, sp, delta) >= r.sp_starving,
{
}

/// Either the change fits and SP moves by it, or it would take SP below the
/// starving line: then SP stops at the line and there is damage. A change
/// never goes without both.
pub proof fn lemma_floor_or_damage(r: CharaRules, max_hp: int, sp: int, delta: int)
    requires
        r.valid(),
    ensures
        starvation_damage(r, max_hp, sp, delta) is None && sp + delta <= i32::MAX ==> sp_floored(
            r,
            sp,
            delta,
        ) == sp + delta,
        starvation_damage(r, max_hp, sp, delta) is Some ==> sp_floored(r, sp, delta)
            == r.sp_starving && sp + delta < r.sp_starving,
        starvation_damage(r, max_hp, sp, delta) is Some && max_hp >= 0 ==> starvation_damage(
            r,
            max_hp,
            sp,
            delta,
        )->0 >= 0,
{
    if sp + delta < r.sp_starving {
        let d = r.sp_starving - (sp + delta);
        assert(4 * max_hp * d >= 0 <==> max_hp >= 0) by (nonlinear_arith)
            requires
                d > 0,
        ;
        crate::numeric::lemma_div_toward_zero_bounds(4 * max_hp * d, r.sp_max as int);
    }
}

/// Hysteresis of one step down: a player whose SP is already at or below the
/// hungry line is not marked hungry again, and stays at or below the line.
pub proof fn lemma_no_second_hungry(r: CharaRules, status: Seq<CharaStatus>, sp: int, delta: int)
    requires
        r.valid(),
        delta < 0,
        sp <= r.sp_hungry,
    ensures
        occurrences(sp_status_after(r, status, sp, delta, CharaId::Player), CharaStatus::Hungry)
            <= occurrences(status, CharaStatus::Hungry),
        sp_after(r, sp, delta, CharaId::Player) <= r.sp_hungry,
{
    lemma_occurrences_of_hunger(status, CharaStatus::Weak, CharaStatus::Hungry);
    lemma_occurrences_of_hunger(status, CharaStatus::Starving, CharaStatus::Hungry);
}

/// One step down adds at most one hungry mark, and none where another was
/// there.
pub proof fn lemma_one_hungry_per_step(
    r: CharaRules,
    status: Seq<CharaStatus>,
    sp: int,
    delta: int,
)
    requires
        r.valid(),
        delta < 0,
    ensures
        occurrences(sp_status_after(r, status, sp, delta, CharaId::Player), CharaStatus::Hungry)
            <= occurrences(status, CharaStatus::Hungry) || occurrences(
            sp_status_after(r, status, sp, delta, CharaId::Player),
            CharaStatus::Hungry,
        ) == 1,
{
    lemma_occurrences_of_hunger(status, CharaStatus::Weak, CharaStatus::Hungry);
    lemma_occurrences_of_hunger(status, CharaStatus::Starving, CharaStatus::Hungry);
    lemma_occurrences_of_hunger(status, CharaStatus::Hungry, CharaStatus::Hungry);
}

/// Hysteresis: however often the player's SP is lowered, the hungry mark is
/// never there twice unless it was so before, and while SP starts at or below
/// the hungry line no call adds one.
pub proof fn lemma_hungry_at_most_once(
    r: CharaRules,
    sp: int,
    status: Seq<CharaStatus>,
    deltas: Seq<int>,
)
    requires
        r.valid(),
        forall|i: int| 0 <= i < deltas.len() ==> deltas[i] < 0,
    ensures
        occurrences(after_changes(r, sp, status, deltas).1, CharaStatus::Hungry) <= occurrences(
            status,
            CharaStatus::Hungry,
        ) || occurrences(after_changes(r, sp, status, deltas).1, CharaStatus::Hungry) == 1,
        sp <= r.sp_hungry ==> after_changes(r, sp, status, deltas).0 <= r.sp_hungry
            && occurrences(after_changes(r, sp, status, deltas).1, CharaStatus::Hungry)
            <= occurrences(status, CharaStatus::Hungry),
    decreases deltas.len(),
{
    if deltas.len() > 0 {
        let rest = deltas.drop_last();
        lemma_hungry_at_most_once(r, sp, status, rest);
        let (sp1, status1) = after_changes(r, sp, status, rest);
        lemma_one_hungry_per_step(r, status1, sp1, deltas.last());
        if sp <= r.sp_hungry {
            lemma_no_second_hungry(r, status1, sp1, deltas.last());
        }
    }
}

/// Replenishment that lifts the player's SP above the hungry line from
/// between the weak and the hungry line takes every status of hunger away,
/// and leaves the other statuses as they were.
pub proof fn lemma_replenished_clears_hunger(
    r: CharaRules,
    status: Seq<CharaStatus>,
    sp: int,
    delta: int,
)
    requires
        r.valid(),
        delta > 0,
        r.sp_weak < sp <= r.sp_hungry,
        sp_floored(r, sp, delta) > r.sp_hungry,
    ensures
        sp_status_of(sp_status_after(r, status, sp, delta, CharaId::Player)) == Seq::<
            CharaStatus,
        >::empty(),
        sp_status_after(r, status, sp, delta, CharaId::Player) == without_sp_status(status),
{
    lemma_without_sp_status_twice(status);
}

/// Replenishment that lifts the player's SP above the weak line, from the
/// line or below, leaves weak as the one status of hunger, wherever SP ends.
pub proof fn lemma_replenished_from_weak(
    r: CharaRules,
    status: Seq<CharaStatus>,
    sp: int,
    delta: int,
)
    requires
        r.valid(),
        delta > 0,
        sp <= r.sp_weak,
        sp_floored(r, sp, delta) > r.sp_weak,
    ensures
        sp_status_of(sp_status_after(r, status, sp, delta, CharaId::Player)) == seq![
            CharaStatus::Weak,
        ],
        without_sp_status(sp_status_after(r, status, sp, delta, CharaId::Player))
            == without_sp_status(status),
{
    lemma_with_status_displaces(status, CharaStatus::Weak, CharaStatus::Weak);
    lemma_without_sp_status_twice(status);
    without_sp_status(status).lemma_filter_push(
        CharaStatus::Weak,
        |x: CharaStatus| !x.spec_about_sp(),
    );
}

/// A character that is not the player never shows a change of its statuses,
/// and its SP is never left below the hungry line.
pub proof fn lemma_others_stay_fed(
    r: CharaRules,
    status: Seq<CharaStatus>,
    sp: int,
    delta: int,
    cid: CharaId,
)
    requires
        r.valid(),
        !(cid is Player),
    ensures
        sp_after(r, sp, delta, cid) >= r.sp_hungry,
        sp_status_after(r, status, sp, delta, cid) == status,
{
}

} // verus!
