//! Session control for a Walabot volumetric radar sensor.
//!
//! The library holds the rules of a session: which driver calls an operation
//! makes, in which order, and what it concludes from their results. It does
//! not hold the driver. Each operation takes the replies that the driver has
//! given so far and answers with the next call to make, or with its outcome;
//! see [`exchange`].

use vstd::prelude::*;

pub mod arena;
pub mod error;
pub mod exchange;
pub mod ffi;
pub mod number;
pub mod states;

pub use arena::Arena;
pub use error::Error;

use exchange::{Step, Turn};
use ffi::{Call, CallView, Reply};
use states::Unconnected;

verus! {

/// The conversation that opens a session: the driver is told where its
/// settings are kept.
pub open spec fn opening(folder: Seq<char>, replies: Seq<Reply>) -> Step<Result<(), Seq<char>>> {
    if replies.len() == 0 {
        Step::Ask(CallView::SetSettingsFolder(folder))
    } else if replies[0].failed() {
        Step::Done(Err("Failed to set settings folder"@))
    } else {
        Step::Done(Ok(()))
    }
}

/// Opens a session with the sensor, with the driver's settings in `folder`.
///
/// The session starts out unconnected. `replies` holds the driver's replies so
/// far to the calls asked for here.
pub fn walabot(folder: &str, replies: &[Reply]) -> (turn: Turn<Result<Unconnected, Error>>)
    ensures
        match opening(folder@, replies@) {
            Step::Ask(call) => turn.asks(call),
            Step::Done(Ok(_)) => turn matches Turn::Done(Ok(_)),
            Step::Done(Err(text)) => turn.fails(text),
        },
{
    if replies.len() == 0 {
        Turn::Ask(Call::SetSettingsFolder(folder.to_string()), ())
    } else if replies[0].code != 0 {
        Turn::Done(Err(Error::WalabotError("Failed to set settings folder".to_string())))
    } else {
        Turn::Done(Ok(Unconnected::new()))
    }
}

} // verus!
