//! Skills: what a character has learned, and how experience turns into
//! levels.
//!
//! A skill's progress is a level and the experience gathered toward the next
//! one. A level costs [`SKILL_EXP_LVUP`] points of experience. A grant is
//! weighed against a reference level (the level of whoever the character
//! measured itself against), never exceeds one level's worth, and what goes
//! beyond the next level is carried over.

use vstd::prelude::*;

verus! {

/// Experience that one level costs.
pub const SKILL_EXP_LVUP: u32 = 10000;

/// The kinds of weapon, each with a skill of its own.
#[derive(Clone, Copy, Debug, PartialEq, Eq, Hash, Structural)]
pub enum WeaponKind {
    Axe,
    Bow,
    Dagger,
    Spear,
    Sword,
}

/// The skills.
#[derive(Clone, Copy, Debug, PartialEq, Eq, Hash, Structural)]
pub enum SkillKind {
    BareHands,
    Carrying,
    Defence,
    Endurance,
    Evasion,
    Healing,
    Weapon(WeaponKind),
}

/// How far a skill has come.
#[derive(Clone, Copy, Debug, PartialEq, Eq, Structural)]
pub struct SkillProgress {
    pub level: u32,
    /// Experience toward the next level.
    pub exp: u32,
}

impl SkillProgress {
    /// The experience toward the next level is less than a level costs.
    pub open spec fn valid(&self) -> bool {
        self.exp < SKILL_EXP_LVUP
    }

    /// All the experience that the skill stands for: what its levels cost
    /// and what was gathered since.
    pub open spec fn total(&self) -> int {
        self.level * SKILL_EXP_LVUP + self.exp
    }

    /// The progress after a grant of `add_exp` weighed against `base_level`.
    /// The gain is added to the experience; where that reaches the cost of a
    /// level, the level goes up by one and the rest is carried over. At the
    /// highest level the experience stops short of the next.
    pub open spec fn progressed(&self, add_exp: u32, base_level: u32) -> SkillProgress {
        let sum = self.exp + exp_gain(add_exp, self.level, base_level);
        if sum < SKILL_EXP_LVUP {
            SkillProgress { level: self.level, exp: sum as u32 }
        } else if self.level < u32::MAX {
            SkillProgress { level: (self.level + 1) as u32, exp: (sum - SKILL_EXP_LVUP) as u32 }
        } else {
            SkillProgress { level: self.level, exp: (SKILL_EXP_LVUP - 1) as u32 }
        }
    }

    /// The progress after each grant of `grants` in turn; a grant is the
    /// experience offered and the reference level.
    pub open spec fn after_grants(&self, grants: Seq<(u32, u32)>) -> SkillProgress
        decreases grants.len(),
    {
        if grants.len() == 0 {
            *self
        } else {
            self.after_grants(grants.drop_last()).progressed(grants.last().0, grants.last().1)
        }
    }
}

/// What a grant of `add_exp` is worth to a skill at `level`, weighed against
/// `base_level`: all of it where the reference level is not below the skill's,
/// else the part that the difference in levels, plus one, divides it into; and
/// never more than a level costs.
pub open spec fn exp_gain(add_exp: u32, level: u32, base_level: u32) -> int {
    let weighed = if base_level >= level {
        add_exp as int
    } else {
        add_exp as int / (level - base_level + 1)
    };
    if weighed > SKILL_EXP_LVUP {
        SKILL_EXP_LVUP as int
    } else {
        weighed
    }
}

/// A grant never lowers what a skill stands for, adds no more than its gain,
/// and raises the level by one or not at all.
pub proof fn lemma_grant_never_loses(p: SkillProgress, add_exp: u32, base_level: u32)
    requires
        p.valid(),
    ensures
        p.progressed(add_exp, base_level).valid(),
        p.progressed(add_exp, base_level).total() >= p.total(),
        p.progressed(add_exp, base_level).total() - p.total() <= exp_gain(
            add_exp,
            p.level,
            base_level,
        ),
        p.level < u32::MAX ==> p.progressed(add_exp, base_level).total() - p.total()
            == exp_gain(add_exp, p.level, base_level),
        p.progressed(add_exp, base_level).level == p.level || p.progressed(
            add_exp,
            base_level,
        ).level == p.level + 1,
        p.progressed(add_exp, base_level).level >= p.level,
{
    lemma_exp_gain_bounds(add_exp, p.level, base_level);
}

/// A gain is not negative, not more than what was offered and not more than a
/// level costs.
pub proof fn lemma_exp_gain_bounds(add_exp: u32, level: u32, base_level: u32)
    ensures
        0 <= exp_gain(add_exp, level, base_level) <= add_exp,
        exp_gain(add_exp, level, base_level) <= SKILL_EXP_LVUP,
{
    if base_level < level {
        let d = level - base_level + 1;
        vstd::arithmetic::div_mod::lemma_div_pos_is_pos(add_exp as int, d);
        vstd::arithmetic::div_mod::lemma_div_is_ordered_by_denominator(add_exp as int, 1, d);
        vstd::arithmetic::div_mod::lemma_div_basics(add_exp as int);
    }
}

/// Accrual is monotone: after any number of grants a skill stands for at
/// least as much experience as before, at a level that is not lower.
pub proof fn lemma_accrual_monotone(p: SkillProgress, grants: Seq<(u32, u32)>)
    requires
        p.valid(),
    ensures
        p.after_grants(grants).valid(),
        p.after_grants(grants).total() >= p.total(),
        p.after_grants(grants).level >= p.level,
    decreases grants.len(),
{
    if grants.len() > 0 {
        lemma_accrual_monotone(p, grants.drop_last());
        lemma_grant_never_loses(
            p.after_grants(grants.drop_last()),
            grants.last().0,
            grants.last().1,
        );
    }
}

/// Accrual is monotone in the number of grants too: a run of grants leaves
/// at least what any shorter start of it leaves.
pub proof fn lemma_accrual_monotone_in_length(p: SkillProgress, grants: Seq<(u32, u32)>, k: int)
    requires
        p.valid(),
        0 <= k <= grants.len(),
    ensures
        p.after_grants(grants).total() >= p.after_grants(grants.take(k)).total(),
    decreases grants.len(),
{
    if k == grants.len() {
        assert(grants.take(k) =~= grants);
    } else {
        lemma_accrual_monotone_in_length(p, grants.drop_last(), k);
        assert(grants.drop_last().take(k) =~= grants.take(k));
        lemma_accrual_monotone(p, grants.drop_last());
        lemma_grant_never_loses(
            p.after_grants(grants.drop_last()),
            grants.last().0,
            grants.last().1,
        );
    }
}

/// A learned skill and its progress.
#[derive(Clone, Copy, Debug)]
struct SkillEntry {
    kind: SkillKind,
    progress: SkillProgress,
}

/// The skills that a character has learned, each once, with its progress.
/// A skill that is not in the list reads as level 0 and takes no experience.
#[derive(Clone, Debug)]
pub struct SkillList {
    entries: Vec<SkillEntry>,
}

impl View for SkillList {
    type V = Map<SkillKind, SkillProgress>;

    /// The learned skills and the progress of each.
    closed spec fn view(&self) -> Map<SkillKind, SkillProgress> {
        entries_map(self.entries@)
    }
}

/// Some entry of `entries` is for `kind`.
spec fn has_kind(entries: Seq<SkillEntry>, kind: SkillKind) -> bool {
    exists|i: int| 0 <= i < entries.len() && (#[trigger] entries[i]).kind == kind
}

/// The place of an entry for `kind`.
spec fn index_of(entries: Seq<SkillEntry>, kind: SkillKind) -> int {
    choose|i: int| 0 <= i < entries.len() && (#[trigger] entries[i]).kind == kind
}

spec fn entries_map(entries: Seq<SkillEntry>) -> Map<SkillKind, SkillProgress> {
    Map::new(
        |k: SkillKind| has_kind(entries, k),
        |k: SkillKind| entries[index_of(entries, k)].progress,
    )
}

/// No skill has two entries.
spec fn distinct_kinds(entries: Seq<SkillEntry>) -> bool {
    forall|i: int, j: int|
        0 <= i < j < entries.len() ==> (#[trigger] entries[i]).kind != (#[trigger] entries[j]).kind
}

/// Where no skill has two entries, the entry at `i` is the one that the map
/// shows for its skill.
proof fn lemma_entry_in_map(entries: Seq<SkillEntry>, i: int)
    requires
        distinct_kinds(entries),
        0 <= i < entries.len(),
    ensures
        entries_map(entries).contains_key(entries[i].kind),
        entries_map(entries)[entries[i].kind] == entries[i].progress,
{
    let k = entries[i].kind;
    assert(has_kind(entries, k));
    let j = index_of(entries, k);
    assert(0 <= j < entries.len() && entries[j].kind == k);
    if j < i {
        assert(entries[j].kind != entries[i].kind);
    } else if i < j {
        assert(entries[i].kind != entries[j].kind);
    }
}

impl SkillList {
    /// No skill is listed twice, and the progress of each is valid. Every
    /// function that makes or changes a list keeps it so.
    pub closed spec fn wf(&self) -> bool {
        &&& distinct_kinds(self.entries@)
        &&& forall|i: int|
            0 <= i < self.entries@.len() ==> (#[trigger] self.entries@[i]).progress.valid()
    }

    /// What a well-formed list shows of a skill is valid progress.
    pub proof fn lemma_progress_valid(&self, kind: SkillKind)
        requires
            self.wf(),
            self@.contains_key(kind),
        ensures
            self@[kind].valid(),
    {
        let i = index_of(self.entries@, kind);
        assert(has_kind(self.entries@, kind));
        lemma_entry_in_map(self.entries@, i);
    }

    /// The level that the list shows for `kind`: 0 for a skill not learned.
    pub open spec fn level_of(&self, kind: SkillKind) -> u32 {
        if self@.contains_key(kind) {
            self@[kind].level
        } else {
            0
        }
    }

    /// A grant to a learned skill of a well-formed list never lowers what
    /// the skill stands for, nor its level.
    pub proof fn lemma_grant_keeps_progress(&self, kind: SkillKind, add_exp: u32, base_level: u32)
        requires
            self.wf(),
            self@.contains_key(kind),
        ensures
            self@[kind].progressed(add_exp, base_level).valid(),
            self@[kind].progressed(add_exp, base_level).total() >= self@[kind].total(),
            self@[kind].progressed(add_exp, base_level).level >= self@[kind].level,
    {
        self.lemma_progress_valid(kind);
        lemma_grant_never_loses(self@[kind], add_exp, base_level);
    }

    /// A list without skills.
    pub fn new() -> (list: SkillList)
        ensures
            list.wf(),
            list@ == Map::<SkillKind, SkillProgress>::empty(),
    {
        let list = SkillList { entries: Vec::new() };
        list
    }

    /// The place of the entry for `kind`, if there is one.
    fn find(&self, kind: SkillKind) -> (found: Option<usize>)
        ensures
            match found {
                Some(i) => i < self.entries@.len() && self.entries@[i as int].kind == kind,
                None => !has_kind(self.entries@, kind),
            },
    {
        let n = self.entries.len();
        let mut i: usize = 0;
        while i < n
            invariant
                i <= n,
                n == self.entries@.len(),
                forall|j: int| 0 <= j < i ==> (#[trigger] self.entries@[j]).kind != kind,
            decreases n - i,
        {
            if self.entries[i].kind == kind {
                return Some(i);
            }
            i += 1;
        }
        None
    }

    /// Tests whether `kind` has been learned.
    pub fn has(&self, kind: SkillKind) -> (r: bool)
        ensures
            r == self@.contains_key(kind),
    {
        self.find(kind).is_some()
    }

    /// The level of `kind`: 0 for a skill not learned.
    pub fn get(&self, kind: SkillKind) -> (level: u32)
        requires
            self.wf(),
        ensures
            level == self.level_of(kind),
    {
        match self.find(kind) {
            Some(i) => {
                proof {
                    lemma_entry_in_map(self.entries@, i as int);
                }
                self.entries[i].progress.level
            },
            None => 0,
        }
    }

    /// The progress of `kind`, if it has been learned.
    pub fn progress(&self, kind: SkillKind) -> (p: Option<SkillProgress>)
        requires
            self.wf(),
        ensures
            p == if self@.contains_key(kind) {
                Some(self@[kind])
            } else {
                None
            },
            p matches Some(q) ==> q.valid(),
    {
        match self.find(kind) {
            Some(i) => {
                proof {
                    lemma_entry_in_map(self.entries@, i as int);
                }
                Some(self.entries[i].progress)
            },
            None => None,
        }
    }

    /// Learns `kind` at `level`, with no experience toward the next. A skill
    /// already learned stays as it is.
    pub fn learn(&mut self, kind: SkillKind, level: u32)
        requires
            old(self).wf(),
        ensures
            final(self).wf(),
            final(self)@ == if old(self)@.contains_key(kind) {
                old(self)@
            } else {
                old(self)@.insert(kind, SkillProgress { level, exp: 0 })
            },
    {
        if self.find(kind).is_none() {
            let ghost before = self.entries@;
            let entry = SkillEntry { kind, progress: SkillProgress { level, exp: 0 } };
            self.entries.push(entry);
            proof {
                let after = self.entries@;
                assert(distinct_kinds(after)) by {
                    assert forall|i: int, j: int| 0 <= i < j < after.len() implies (
                    #[trigger] after[i]).kind != (#[trigger] after[j]).kind by {
                        if j < before.len() {
                            assert(before[i].kind != before[j].kind);
                        } else {
                            assert(before[i].kind != kind);
                        }
                    }
                }
                lemma_pushed_map(before, entry);
            }
        }
    }

    /// Grants `add_exp` points of experience to `kind`, weighed against
    /// `base_level`: see [`SkillProgress::progressed`]. Returns whether the
    /// level went up, and by how much the skill's experience grew. A skill not
    /// learned takes nothing.
    pub fn add_exp(&mut self, kind: SkillKind, add_exp: u32, base_level: u32) -> (result: (
        bool,
        u32,
    ))
        requires
            old(self).wf(),
        ensures
            final(self).wf(),
            !old(self)@.contains_key(kind) ==> final(self)@ == old(self)@ && result == (
                false,
                0u32,
            ),
            old(self)@.contains_key(kind) ==> {
                let before = old(self)@[kind];
                let after = before.progressed(add_exp, base_level);
                &&& final(self)@ == old(self)@.insert(kind, after)
                &&& result.0 == (after.level > before.level)
                &&& result.1 == after.total() - before.total()
            },
    {
        match self.find(kind) {
            None => (false, 0),
            Some(i) => {
                let ghost entries = self.entries@;
                let before = self.entries[i].progress;
                proof {
                    lemma_entry_in_map(entries, i as int);
                    lemma_grant_never_loses(before, add_exp, base_level);
                }
                let gain = gain_of(add_exp, before.level, base_level);
                let sum: u32 = before.exp + gain;
                let after = if sum < SKILL_EXP_LVUP {
                    SkillProgress { level: before.level, exp: sum }
                } else if before.level < u32::MAX {
                    SkillProgress { level: before.level + 1, exp: sum - SKILL_EXP_LVUP }
                } else {
                    SkillProgress { level: before.level, exp: SKILL_EXP_LVUP - 1 }
                };
                let applied: u32 = if after.level > before.level {
                    after.exp + (SKILL_EXP_LVUP - before.exp)
                } else {
                    after.exp - before.exp
                };
                assert(applied == after.total() - before.total()) by (nonlinear_arith)
                    requires
                        applied == if after.level > before.level {
                            after.exp + (SKILL_EXP_LVUP - before.exp)
                        } else {
                            after.exp - before.exp
                        },
                        after.level == before.level || after.level == before.level + 1,
                        after.total() == after.level * SKILL_EXP_LVUP + after.exp,
                        before.total() == before.level * SKILL_EXP_LVUP + before.exp,
                ;
                let entry = SkillEntry { kind, progress: after };
                self.entries.set(i, entry);
                proof {
                    lemma_updated_map(entries, i as int, entry);
                }
                (after.level > before.level, applied)
            },
        }
    }
}

/// Computes [`exp_gain`].
fn gain_of(add_exp: u32, level: u32, base_level: u32) -> (gain: u32)
    ensures
        gain == exp_gain(add_exp, level, base_level),
{
    let weighed: u64 = if base_level >= level {
        add_exp as u64
    } else {
        let d: u64 = (level - base_level) as u64 + 1;
        add_exp as u64 / d
    };
    if weighed > SKILL_EXP_LVUP as u64 {
        SKILL_EXP_LVUP
    } else {
        weighed as u32
    }
}

/// An entry for a new skill, pushed onto the entries, is an insertion into
/// the map.
proof fn lemma_pushed_map(entries: Seq<SkillEntry>, entry: SkillEntry)
    requires
        distinct_kinds(entries.push(entry)),
    ensures
        entries_map(entries.push(entry)) == entries_map(entries).insert(
            entry.kind,
            entry.progress,
        ),
{
    let after = entries.push(entry);
    let n = entries.len() as int;
    assert(after[n] == entry);
    assert forall|k: SkillKind| has_kind(after, k) <==> (k == entry.kind || has_kind(
        entries,
        k,
    )) by {
        if has_kind(after, k) {
            let i = index_of(after, k);
            if i < n {
                assert(entries[i].kind == k);
            }
        }
        if has_kind(entries, k) {
            let i = index_of(entries, k);
            assert(after[i].kind == k);
        }
        if k == entry.kind {
            assert(after[n].kind == k);
        }
    }
    assert forall|k: SkillKind| has_kind(entries, k) && k != entry.kind implies entries_map(
        after,
    )[k] == entries_map(entries)[k] by {
        let i = index_of(entries, k);
        assert(after[i] == entries[i]);
        lemma_entry_in_map(after, i);
        assert(distinct_kinds(entries)) by {
            assert forall|a: int, b: int| 0 <= a < b < entries.len() implies (
            #[trigger] entries[a]).kind != (#[trigger] entries[b]).kind by {
                assert(after[a].kind != after[b].kind);
            }
        }
        lemma_entry_in_map(entries, i);
    }
    lemma_entry_in_map(after, n);
    assert(entries_map(after) =~= entries_map(entries).insert(entry.kind, entry.progress));
}

/// An entry replaced by one for the same skill is an insertion into the map.
proof fn lemma_updated_map(entries: Seq<SkillEntry>, i: int, entry: SkillEntry)
    requires
        distinct_kinds(entries),
        0 <= i < entries.len(),
        entries[i].kind == entry.kind,
    ensures
        distinct_kinds(entries.update(i, entry)),
        entries_map(entries.update(i, entry)) == entries_map(entries).insert(
            entry.kind,
            entry.progress,
        ),
{
    let after = entries.update(i, entry);
    assert forall|a: int, b: int| 0 <= a < b < after.len() implies (#[trigger] after[a]).kind != (
    #[trigger] after[b]).kind by {
        assert(entries[a].kind != entries[b].kind);
    }
    assert forall|k: SkillKind| has_kind(after, k) <==> has_kind(entries, k) by {
        if has_kind(after, k) {
            let j = index_of(after, k);
            assert(entries[j].kind == k);
        }
        if has_kind(entries, k) {
            let j = index_of(entries, k);
            assert(after[j].kind == k);
        }
    }
    assert(has_kind(entries, entry.kind));
    assert forall|k: SkillKind| has_kind(entries, k) && k != entry.kind implies entries_map(
        after,
    )[k] == entries_map(entries)[k] by {
        let j = index_of(entries, k);
        assert(after[j] == entries[j]);
        lemma_entry_in_map(after, j);
        lemma_entry_in_map(entries, j);
    }
    lemma_entry_in_map(after, i);
    assert(entries_map(after) =~= entries_map(entries).insert(entry.kind, entry.progress));
}

} // verus!
