//! Statuses: the conditions attached to a character, how they age, when they
//! end, and how the three statuses of hunger displace one another.

use vstd::prelude::*;

verus! {

/// A condition attached to a character. Some run for a number of turns, the
/// others last until something takes them away.
#[derive(Clone, Copy, Debug, PartialEq, Eq, Structural)]
pub enum CharaStatus {
    /// Stamina is at or below the hungry line.
    Hungry,
    /// Stamina is at or below the weak line.
    Weak,
    /// Stamina is at the floor.
    Starving,
    /// Carrying a burden (the lightest of the four loads).
    Burdened,
    /// Carrying more than is comfortable.
    Stressed,
    /// Carrying close to the limit.
    Strained,
    /// Carrying more than the limit.
    Overloaded,
    /// Examined by another character.
    Scanned,
    /// Sleeping for `turn_left` more turns; a sleeper does not act.
    Asleep { turn_left: u16 },
    /// Losing hit points every turn.
    Poisoned,
    /// Busy for `turn_left` of `needed_turn` turns with the task that `work`
    /// identifies; a worker does not act.
    Work { turn_left: u16, needed_turn: u16, work: u32 },
}

impl CharaStatus {
    /// One of the three statuses of hunger.
    pub open spec fn spec_about_sp(&self) -> bool {
        *self is Hungry || *self is Weak || *self is Starving
    }

    /// Tests whether this is one of the three statuses of hunger.
    #[verifier::when_used_as_spec(spec_about_sp)]
    pub fn about_sp(&self) -> (r: bool)
        ensures
            r == self.spec_about_sp(),
    {
        match *self {
            CharaStatus::Hungry | CharaStatus::Weak | CharaStatus::Starving => true,
            _ => false,
        }
    }

    /// The status after `ticks` turns: a countdown goes down by `ticks` and
    /// stops at zero, a status without one is as before.
    pub open spec fn advanced(self, ticks: u16) -> CharaStatus {
        match self {
            CharaStatus::Asleep { turn_left } => CharaStatus::Asleep {
                turn_left: if turn_left > ticks {
                    (turn_left - ticks) as u16
                } else {
                    0
                },
            },
            CharaStatus::Work { turn_left, needed_turn, work } => CharaStatus::Work {
                turn_left: if turn_left > ticks {
                    (turn_left - ticks) as u16
                } else {
                    0
                },
                needed_turn,
                work,
            },
            _ => self,
        }
    }

    /// Lets `passed_turn` turns pass for this status.
    pub fn advance_turn(&mut self, passed_turn: u16)
        ensures
            *final(self) == old(self).advanced(passed_turn),
    {
        match *self {
            CharaStatus::Asleep { turn_left } => {
                let left: u16 = if turn_left > passed_turn {
                    turn_left - passed_turn
                } else {
                    0
                };
                *self = CharaStatus::Asleep { turn_left: left };
            },
            CharaStatus::Work { turn_left, needed_turn, work } => {
                let left: u16 = if turn_left > passed_turn {
                    turn_left - passed_turn
                } else {
                    0
                };
                *self = CharaStatus::Work { turn_left: left, needed_turn, work };
            },
            _ => {},
        }
    }

    /// A countdown that has reached zero.
    pub open spec fn spec_is_expired(&self) -> bool {
        match *self {
            CharaStatus::Asleep { turn_left } => turn_left == 0,
            CharaStatus::Work { turn_left, .. } => turn_left == 0,
            _ => false,
        }
    }

    /// Tests whether the status has run out.
    #[verifier::when_used_as_spec(spec_is_expired)]
    pub fn is_expired(&self) -> (r: bool)
        ensures
            r == self.spec_is_expired(),
    {
        match *self {
            CharaStatus::Asleep { turn_left } => turn_left == 0,
            CharaStatus::Work { turn_left, .. } => turn_left == 0,
            _ => false,
        }
    }

    /// Sleep and work keep a character from acting.
    pub open spec fn spec_blocks_acting(&self) -> bool {
        *self is Asleep || *self is Work
    }

    /// Tests whether the status keeps its bearer from acting.
    #[verifier::when_used_as_spec(spec_blocks_acting)]
    pub fn blocks_acting(&self) -> (r: bool)
        ensures
            r == self.spec_blocks_acting(),
    {
        match *self {
            CharaStatus::Asleep { .. } | CharaStatus::Work { .. } => true,
            _ => false,
        }
    }
}

/// Every status of `s`, `ticks` turns later.
pub open spec fn all_advanced(s: Seq<CharaStatus>, ticks: u16) -> Seq<CharaStatus> {
    s.map_values(|x: CharaStatus| x.advanced(ticks))
}

/// The statuses of `s` that have run out, in their order.
pub open spec fn expired_of(s: Seq<CharaStatus>) -> Seq<CharaStatus> {
    s.filter(|x: CharaStatus| x.spec_is_expired())
}

/// The statuses of `s` that have not run out, in their order.
pub open spec fn surviving_of(s: Seq<CharaStatus>) -> Seq<CharaStatus> {
    s.filter(|x: CharaStatus| !x.spec_is_expired())
}

/// `s` without the statuses of hunger, the others in their order.
pub open spec fn without_sp_status(s: Seq<CharaStatus>) -> Seq<CharaStatus> {
    s.filter(|x: CharaStatus| !x.spec_about_sp())
}

/// The statuses of hunger in `s`, in their order.
pub open spec fn sp_status_of(s: Seq<CharaStatus>) -> Seq<CharaStatus> {
    s.filter(|x: CharaStatus| x.spec_about_sp())
}

/// `s` with `new` attached at the end. A status of hunger takes the place of
/// every status of hunger that was there; any other status is added to what
/// was there.
pub open spec fn with_status(s: Seq<CharaStatus>, new: CharaStatus) -> Seq<CharaStatus> {
    if new.spec_about_sp() {
        without_sp_status(s).push(new)
    } else {
        s.push(new)
    }
}

/// How often `x` occurs in `s`.
pub open spec fn occurrences(s: Seq<CharaStatus>, x: CharaStatus) -> nat
    decreases s.len(),
{
    if s.len() == 0 {
        0
    } else if s.last() == x {
        occurrences(s.drop_last(), x) + 1
    } else {
        occurrences(s.drop_last(), x)
    }
}

/// A status attached at the end occurs once more; the others occur as often
/// as before.
pub proof fn lemma_occurrences_push(s: Seq<CharaStatus>, new: CharaStatus, x: CharaStatus)
    ensures
        occurrences(s.push(new), x) == if new == x {
            occurrences(s, x) + 1
        } else {
            occurrences(s, x)
        },
{
    assert(s.push(new).drop_last() =~= s);
}

/// Lets `ticks` turns pass for every status of the list.
pub fn advance_all(status: &mut Vec<CharaStatus>, ticks: u16)
    ensures
        final(status)@ == all_advanced(old(status)@, ticks),
{
    let n = status.len();
    let mut i: usize = 0;
    while i < n
        invariant
            i <= n,
            status@.len() == n,
            old(status)@.len() == n,
            forall|j: int| 0 <= j < i ==> status@[j] == (#[trigger] old(status)@[j]).advanced(ticks),
            forall|j: int| i <= j < n ==> status@[j] == old(status)@[j],
        decreases n - i,
    {
        let mut s = status[i];
        s.advance_turn(ticks);
        status.set(i, s);
        i += 1;
    }
    assert(status@ =~= all_advanced(old(status)@, ticks));
}

/// Takes the statuses that have run out from the list and returns them. The
/// order is kept on both sides.
pub fn partition_expired(status: &mut Vec<CharaStatus>) -> (expired: Vec<CharaStatus>)
    ensures
        final(status)@ == surviving_of(old(status)@),
        expired@ == expired_of(old(status)@),
{
    let mut remaining: Vec<CharaStatus> = Vec::new();
    let mut expired: Vec<CharaStatus> = Vec::new();
    let n = status.len();
    let mut i: usize = 0;
    while i < n
        invariant
            i <= n,
            status@.len() == n,
            status@ == old(status)@,
            remaining@ == surviving_of(status@.take(i as int)),
            expired@ == expired_of(status@.take(i as int)),
        decreases n - i,
    {
        let s = status[i];
        proof {
            let prefix = status@.take(i as int);
            status@.lemma_take_succ_push(i as int);
            prefix.lemma_filter_push(s, |x: CharaStatus| x.spec_is_expired());
            prefix.lemma_filter_push(s, |x: CharaStatus| !x.spec_is_expired());
        }
        if s.is_expired() {
            expired.push(s);
        } else {
            remaining.push(s);
        }
        i += 1;
    }
    proof {
        status@.lemma_take_len();
    }
    *status = remaining;
    expired
}

/// Takes the statuses of hunger from the list; the others keep their order.
pub fn remove_sp_status(status: &mut Vec<CharaStatus>)
    ensures
        final(status)@ == without_sp_status(old(status)@),
{
    let mut remaining: Vec<CharaStatus> = Vec::new();
    let n = status.len();
    let mut i: usize = 0;
    while i < n
        invariant
            i <= n,
            status@.len() == n,
            status@ == old(status)@,
            remaining@ == without_sp_status(status@.take(i as int)),
        decreases n - i,
    {
        let s = status[i];
        proof {
            status@.lemma_take_succ_push(i as int);
            status@.take(i as int).lemma_filter_push(s, |x: CharaStatus| !x.spec_about_sp());
        }
        if !s.about_sp() {
            remaining.push(s);
        }
        i += 1;
    }
    proof {
        status@.lemma_take_len();
    }
    *status = remaining;
}

/// Attaches `new` to the list: see [`with_status`].
pub fn add_status(status: &mut Vec<CharaStatus>, new: CharaStatus)
    ensures
        final(status)@ == with_status(old(status)@, new),
{
    if new.about_sp() {
        remove_sp_status(status);
    }
    status.push(new);
}

} // verus!
