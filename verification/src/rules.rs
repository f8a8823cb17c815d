//! The numbers that a ruleset fixes: thresholds of the stamina resource,
//! consumption per turn, chances and factors of regeneration, and the
//! experience that each occasion awards. Nothing here is ever changed by the
//! turn logic.

use vstd::prelude::*;

verus! {

/// A fraction of two unsigned integers. Chances and factors that a ruleset
/// gives are held in this form.
#[derive(Clone, Copy, Debug, PartialEq, Eq, Structural)]
pub struct Ratio {
    pub num: u32,
    pub den: u32,
}

impl Ratio {
    /// The denominator is not zero.
    pub open spec fn valid(&self) -> bool {
        self.den > 0
    }

    /// The fraction lies between zero and one.
    pub open spec fn is_probability(&self) -> bool {
        self.den > 0 && self.num <= self.den
    }

    /// `n` times the fraction, rounded down.
    pub open spec fn scale(&self, n: int) -> int
        recommends
            self.valid(),
            n >= 0,
    {
        (n * self.num) / (self.den as int)
    }
}

/// Rules of a character's stamina points (SP) and of the regeneration of hit
/// points. SP is counted in whole points; a ruleset that thinks in fractions
/// picks a finer unit.
#[derive(Clone, Copy, Debug, PartialEq, Eq, Structural)]
pub struct CharaRules {
    /// The scale of the resource: a deficit of `sp_max` costs four times the
    /// character's maximum hit points.
    pub sp_max: i32,
    /// At or below this the character is hungry.
    pub sp_hungry: i32,
    /// At or below this the character is weak.
    pub sp_weak: i32,
    /// At or below this the character is starving; SP never stays below it.
    pub sp_starving: i32,
    /// SP spent in a turn without regeneration.
    pub sp_consumption: i32,
    /// SP spent in a turn in which hit points may regenerate.
    pub sp_consumption_regen: i32,
    /// Chance that hit points regenerate in a turn.
    pub hp_regeneration_probability: Ratio,
    /// Faces of the healing die per level of the healing skill.
    pub hp_regeneration_factor: Ratio,
}

impl CharaRules {
    /// The thresholds are ordered, the scale is positive and the fractions are
    /// well formed.
    pub open spec fn valid(&self) -> bool {
        &&& self.sp_starving < self.sp_weak
        &&& self.sp_weak < self.sp_hungry
        &&& self.sp_max > 0
        &&& self.hp_regeneration_probability.is_probability()
        &&& self.hp_regeneration_factor.valid()
    }
}

/// Experience awarded per occasion.
#[derive(Clone, Copy, Debug, PartialEq, Eq, Structural)]
pub struct ExpRules {
    /// For an attack, to the skill of the weapon.
    pub attack: u32,
    /// For damage equal to the maximum hit points, to endurance.
    pub endurance: u32,
    /// For an evaded attack, to evasion.
    pub evasion: u32,
    /// For a turn of regeneration, to healing.
    pub healing: u32,
    /// Chance that a turn of regeneration trains healing.
    pub healing_probability: Ratio,
}

impl ExpRules {
    pub open spec fn valid(&self) -> bool {
        self.healing_probability.is_probability()
    }
}

/// A ruleset.
#[derive(Clone, Copy, Debug, PartialEq, Eq, Structural)]
pub struct Rules {
    pub chara: CharaRules,
    pub exp: ExpRules,
}

impl Rules {
    pub open spec fn valid(&self) -> bool {
        self.chara.valid() && self.exp.valid()
    }

    /// Tests whether the ruleset is usable: see [`Rules::valid`].
    pub fn is_valid(&self) -> (ok: bool)
        ensures
            ok == self.valid(),
    {
        let c = &self.chara;
        c.sp_starving < c.sp_weak && c.sp_weak < c.sp_hungry && c.sp_max > 0
            && c.hp_regeneration_probability.den > 0
            && c.hp_regeneration_probability.num <= c.hp_regeneration_probability.den
            && c.hp_regeneration_factor.den > 0 && self.exp.healing_probability.den > 0
            && self.exp.healing_probability.num <= self.exp.healing_probability.den
    }
}

} // verus!
