//! Client-side logic for driving a remote task service: commands, the
//! requests they turn into, the interpretation of the service's replies,
//! and the step-by-step dispatch of one command.
use vstd::prelude::*;

pub mod command;
pub mod dispatch;
pub mod error;
pub mod params;
pub mod reply;
pub mod request;

verus! {

} // verus!
