//! Arithmetic practice for children: modules that generate addition and subtraction
//! questions from a difficulty configuration, and the grading of submitted answers.

pub mod catalog;
pub mod order;
pub mod profile;
pub mod random;
pub mod session;
pub mod syllabus;
pub mod text;
pub mod topic;

pub use catalog::Catalog;
pub use profile::{get_profile_names, sanitise, Profile};
pub use random::{Draw, RandomSource, RangeSource, ScriptedSource};
pub use session::{feedback, select_profile, Listing};
pub use syllabus::{primary, Course, Syllabus};
pub use topic::{addition, subtraction, ConfigError, Module, Operator, Outcome, Question};
