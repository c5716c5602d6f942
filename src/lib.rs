//! The core of an interactive front-end to an agent conversation: the step machine of
//! one turn (events, pending approvals, cancellation), the fold of normalised events into
//! a turn's result, the parser of approval answers, and the small decisions of the
//! command line.
pub mod approval;
pub mod cli;
pub mod decision;
pub mod events;
pub mod text;
pub mod turn;
pub mod turn_result;
