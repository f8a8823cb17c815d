//! Turn preparation for the characters of a turn-based role-playing game.
//!
//! Once per character and turn the game lets the character's statuses age,
//! ends those that ran out, lets poison and hunger do their work, regenerates
//! hit points, and decides whether the character may act. The rules of all
//! this live here, stated over integers and proved. What touches the rest of
//! the game (the world, the screen, the dice) is asked of the host, one
//! request at a time: see [`preturn`].

pub mod chara;
pub mod class;
pub mod numeric;
pub mod preturn;
pub mod rules;
pub mod skill;
pub mod sp;
pub mod status;

pub use chara::{
    Chara, CharaAttributes, CharaEx, CharaId, CharaTrait, CharaView, WAIT_TIME_NUMERATOR,
};
pub use class::{CharaAttrRevision, CharaClass, Class, Classes};
pub use preturn::{
    can_act, preturn, scan_active_effects, ActiveEffects, CharaDamageKind, TurnReply,
    TurnRequest, TurnStage, WorkProgress,
};
pub use rules::{CharaRules, ExpRules, Ratio, Rules};
pub use skill::{SkillKind, SkillList, SkillProgress, WeaponKind, SKILL_EXP_LVUP};
pub use status::{add_status, advance_all, partition_expired, remove_sp_status, CharaStatus};
