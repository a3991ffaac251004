//! Rules engine for a tabletop-RPG character sheet.
//!
//! The crate models the derived numeric state of a character: ability
//! scores, proficiency ranks and their level-scaled bonuses, named bonus
//! lines (skills, saves, class DCs, ...), hit-point pools with temporary
//! hit points, a shield with hardness and a raised stance, the armor-class
//! formula, and the mapping between the compact persisted record and the
//! fully computed in-memory aggregate.

pub mod assoc;
pub mod attributes;
pub mod auto_bonus_prog;
pub mod character;
pub mod conditions;
pub mod errors;
pub mod gear;
pub mod hp;
pub mod proficiency;
pub mod stats;
pub mod tactics;
pub mod text;

pub use attributes::Attributes;
pub use auto_bonus_prog::AbpData;
pub use character::Character;
pub use character::SimpleCharacter;
pub use conditions::Condition;
pub use errors::CharError;
pub use gear::Gear;
pub use gear::GearType;
pub use hp::HpInfo;
pub use hp::ShieldInfo;
pub use proficiency::ProficiencyLevel;
pub use stats::CalculatedStat;
pub use stats::ProficiencyType;
pub use tactics::Tactic;
pub use text::str_eq;
