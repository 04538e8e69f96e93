//! Core logic of an animated two-bar linkage demo: the rule for numeric
//! input, the checkbox builder, the animation timer's state machine and the
//! cache of the traced path of the linkage's tracked point.
pub mod checkbox;
pub mod input;
pub mod scheduler;
pub mod trace;
