//! The session, one type for each state it can be in.
//!
//! A sensor is first `Unconnected`, then `Connected`, and while it scans there
//! is a `Started` stream of sweeps. Each state offers only the operations that
//! are in order in it, and a state can be had only from the transition that
//! leads to it.
//!
//! Each operation takes `replies`: what the driver has answered so far to the
//! calls that this run of the operation has asked for, oldest first. It
//! answers with the next call to make or with its outcome, as `exchange`
//! describes.

use std::marker::PhantomData;
use vstd::prelude::*;
use vstd::slice::slice_subrange;
use crate::arena::Arena;
use crate::error::{Error, ErrorView};
use crate::exchange::{attempt, attempted, Step, Turn};
use crate::ffi::{Call, CallView, RawVolume, Reply, ScanProfile, Status};

verus! {

/// Walabot is not connected
#[derive(Debug)]
pub struct Unconnected {
    seal: (),
}

/// Walabot is connected
#[derive(Debug)]
pub struct Connected {
    seal: (),
}

impl Unconnected {
    /// The state before any connection. Only the start of a session makes one.
    pub(crate) fn new() -> Unconnected {
        Unconnected { seal: () }
    }

    /// Connects to whichever sensor is attached.
    ///
    /// The state is used up: where the driver connects, it becomes
    /// `Connected`, and where the driver refuses, the driver's account of the
    /// refusal is all that is left.
    pub fn connect(self, replies: &[Reply]) -> (turn: Turn<Result<Connected, Error>, Unconnected>)
        ensures
            match attempted(CallView::ConnectAny, replies@) {
                Step::Ask(call) => turn.asks(call) && turn.hands_back(self),
                Step::Done(Ok(_)) => turn matches Turn::Done(Ok(_)),
                Step::Done(Err(account)) => turn.fails(account),
            },
    {
        match attempt(Call::ConnectAny, replies) {
            Turn::Ask(call, _) => Turn::Ask(call, self),
            Turn::Done(Ok(_)) => Turn::Done(Ok(Connected { seal: () })),
            Turn::Done(Err(error)) => Turn::Done(Err(error)),
        }
    }
}

impl Connected {
    /// The conversation that reads the status: one call, and the status that
    /// its code and auxiliary number stand for.
    pub open spec fn reporting(replies: Seq<Reply>) -> Step<Result<Status, Seq<char>>> {
        match attempted(CallView::GetStatus, replies) {
            Step::Ask(call) => Step::Ask(call),
            Step::Done(Ok(reply)) => Step::Done(
                Ok(Status::decode(reply.status_code()).with_progress(reply.param())),
            ),
            Step::Done(Err(account)) => Step::Done(Err(account)),
        }
    }

    /// Whether the replies can be read as a status: where the driver has
    /// given one, its code is among the known ones.
    pub open spec fn legible(replies: Seq<Reply>) -> bool {
        replies.len() > 0 && !replies[0].failed() ==> Status::known(replies[0].status_code())
    }

    /// Whether the replies can be read as a status.
    pub fn is_legible(replies: &[Reply]) -> (legible: bool)
        ensures
            legible == Connected::legible(replies@),
    {
        if replies.len() > 0 && replies[0].code == 0 {
            Status::is_known(replies[0].read_status().0)
        } else {
            true
        }
    }

    /// Reads the state of the sensor, afresh each time.
    ///
    /// The driver gives a status code within the known ones. A reply with
    /// another means that driver and library do not belong together, and has
    /// no place here.
    pub fn status(&self, replies: &[Reply]) -> (turn: Turn<Result<Status, Error>>)
        requires
            Connected::legible(replies@),
        ensures
            match Connected::reporting(replies@) {
                Step::Ask(call) => turn.asks(call),
                Step::Done(Ok(status)) => turn matches Turn::Done(Ok(given)) && given == status,
                Step::Done(Err(account)) => turn.fails(account),
            },
    {
        match attempt(Call::GetStatus, replies) {
            Turn::Ask(call, _) => Turn::Ask(call, ()),
            Turn::Done(Ok(reply)) => {
                let (raw, param) = reply.read_status();
                Turn::Done(Status::from(raw).and(param))
            },
            Turn::Done(Err(error)) => Turn::Done(Err(error)),
        }
    }

    /// Chooses the scan profile. It may be chosen again and again; the driver
    /// keeps the last.
    pub fn set_profile(&mut self, profile: ScanProfile, replies: &[Reply]) -> (turn: Turn<
        Result<(), Error>,
    >)
        ensures
            *final(self) == *old(self),
            match attempted(CallView::SetProfile(profile), replies@) {
                Step::Ask(call) => turn.asks(call),
                Step::Done(Ok(_)) => turn matches Turn::Done(Ok(_)),
                Step::Done(Err(account)) => turn.fails(account),
            },
    {
        match attempt(Call::SetProfile(profile), replies) {
            Turn::Ask(call, _) => Turn::Ask(call, ()),
            Turn::Done(Ok(_)) => Turn::Done(Ok(())),
            Turn::Done(Err(error)) => Turn::Done(Err(error)),
        }
    }

    /// The conversation that starts a scan: the call that arms the sensor,
    /// then the reading of the arena that the scan will cover.
    pub open spec fn starting(replies: Seq<Reply>) -> Step<Result<Arena, Seq<char>>> {
        match attempted(CallView::Start, replies) {
            Step::Ask(call) => Step::Ask(call),
            Step::Done(Ok(_)) => match Arena::reading(replies.skip(1)) {
                Step::Ask(call) => Step::Ask(call),
                Step::Done(arena) => Step::Done(Ok(arena)),
            },
            Step::Done(Err(account)) => Step::Done(Err(account)),
        }
    }

    /// Starts scanning.
    ///
    /// Where the driver arms the sensor, the session is lent to a stream of
    /// sweeps, which carries the arena as the driver then reports it. The
    /// session can be used again once the stream is gone.
    pub fn start<'a>(&'a mut self, replies: &[Reply]) -> (turn: Turn<Result<Started<'a>, Error>>)
        ensures
            *final(self) == *old(self),
            match Connected::starting(replies@) {
                Step::Ask(call) => turn.asks(call),
                Step::Done(Ok(arena)) => turn matches Turn::Done(Ok(stream)) && stream.seeded()
                    == arena && !stream.ended(),
                Step::Done(Err(account)) => turn.fails(account),
            },
    {
        match attempt(Call::Start, replies) {
            Turn::Ask(call, _) => Turn::Ask(call, ()),
            Turn::Done(Ok(_)) => {
                match Arena::from_walabot(slice_subrange(replies, 1, replies.len())) {
                    Turn::Ask(call, _) => Turn::Ask(call, ()),
                    Turn::Done(arena) => Turn::Done(
                        Ok(Started { arena, ended: false, session: PhantomData }),
                    ),
                }
            },
            Turn::Done(Err(error)) => Turn::Done(Err(error)),
        }
    }

    /// Sets the arena that the sensor scans.
    ///
    /// The three axes go to the driver in order. The first that the driver
    /// refuses ends the operation with an error that names it, and the axes
    /// after it are not sent.
    pub fn set_arena(&mut self, arena: Arena, replies: &[Reply]) -> (turn: Turn<Result<(), Error>>)
        ensures
            *final(self) == *old(self),
            match arena.setting(replies@) {
                Step::Ask(call) => turn.asks(call),
                Step::Done(Ok(_)) => turn matches Turn::Done(Ok(_)),
                Step::Done(Err(axis)) => turn.fails("Failed to set arena "@ + axis.name()),
            },
    {
        let mut i: usize = 0;
        while i < 3
            invariant
                i <= 3,
                i <= replies.len(),
                forall|j: int| 0 <= j < i ==> !(#[trigger] replies@[j]).failed(),
            decreases 3 - i,
        {
            let (axis, span) = arena.axis(i);
            if i == replies.len() {
                return Turn::Ask(Call::SetArena(axis, span), ());
            }
            if replies[i].code != 0 {
                let text: String = "Failed to set arena ".to_string().concat(axis.as_str());
                return Turn::Done(Err(Error::WalabotError(text)));
            }
            i += 1;
        }
        Turn::Done(Ok(()))
    }
}

/// The raw volumes of a running scan, one for each sweep.
///
/// The stream goes on for as long as the driver delivers, and ends with the
/// first error. While it lives, the session it was started from is on loan to
/// it.
///
/// A stream is to be stopped, not dropped: only `stop` stands the sensor down.
#[must_use]
pub struct Started<'a> {
    arena: Arena,
    ended: bool,
    session: PhantomData<&'a mut Connected>,
}

impl<'a> Started<'a> {
    /// The arena that the driver reported when the scan started.
    pub closed spec fn seeded(&self) -> Arena {
        self.arena
    }

    /// Whether the stream has given its last element.
    pub closed spec fn ended(&self) -> bool {
        self.ended
    }

    /// The arena that the driver reported when the scan started.
    pub fn arena(&self) -> (arena: Arena)
        ensures
            arena == self.seeded(),
    {
        self.arena
    }

    /// The conversation of one pull from a live stream: a sweep, then the
    /// volume it produced.
    pub open spec fn pulling(replies: Seq<Reply>) -> Step<Result<RawVolume, Seq<char>>> {
        match attempted(CallView::Trigger, replies) {
            Step::Ask(call) => Step::Ask(call),
            Step::Done(Ok(_)) => match attempted(CallView::GetRawImage, replies.skip(1)) {
                Step::Ask(call) => Step::Ask(call),
                Step::Done(Ok(reply)) => Step::Done(Ok(reply.volume())),
                Step::Done(Err(account)) => Step::Done(Err(account)),
            },
            Step::Done(Err(account)) => Step::Done(Err(account)),
        }
    }

    /// Pulls the next element of the stream.
    ///
    /// A live stream triggers one sweep and yields its volume, or the error
    /// that the driver gave instead; the error is its last element. A stream
    /// that has ended yields nothing and asks nothing of the driver.
    ///
    /// The volume describes cells in the driver's own buffer, which holds them
    /// until the next pull or until the stream is stopped, and no longer.
    pub fn next(&mut self, replies: &[Reply]) -> (turn: Turn<Option<Result<RawVolume, Error>>>)
        ensures
            final(self).seeded() == old(self).seeded(),
            old(self).ended() ==> (turn matches Turn::Done(None)) && final(self).ended(),
            !old(self).ended() ==> match Started::pulling(replies@) {
                Step::Ask(call) => turn.asks(call) && !final(self).ended(),
                Step::Done(Ok(volume)) => turn matches Turn::Done(Some(Ok(given))) && given
                    == volume && !final(self).ended(),
                Step::Done(Err(account)) => turn matches Turn::Done(Some(Err(error))) && error@
                    == ErrorView::WalabotError(account) && final(self).ended(),
            },
    {
        if self.ended {
            return Turn::Done(None);
        }
        match attempt(Call::Trigger, replies) {
            Turn::Ask(call, _) => Turn::Ask(call, ()),
            Turn::Done(Ok(_)) => {
                match attempt(Call::GetRawImage, slice_subrange(replies, 1, replies.len())) {
                    Turn::Ask(call, _) => Turn::Ask(call, ()),
                    Turn::Done(Ok(reply)) => Turn::Done(Some(Ok(reply.read_volume()))),
                    Turn::Done(Err(error)) => {
                        self.ended = true;
                        Turn::Done(Some(Err(error)))
                    },
                }
            },
            Turn::Done(Err(error)) => {
                self.ended = true;
                Turn::Done(Some(Err(error)))
            },
        }
    }

    /// The conversation that stops a scan: the call that stands the sensor
    /// down, and where the driver refuses it, the inquiry into the refusal and
    /// a line for the log.
    pub open spec fn stopping(replies: Seq<Reply>) -> Step<()> {
        match attempted(CallView::Stop, replies) {
            Step::Ask(call) => Step::Ask(call),
            Step::Done(Ok(_)) => Step::Done(()),
            Step::Done(Err(account)) => if replies.len() == 2 {
                Step::Ask(
                    CallView::Log(
                        "Failed to stop Walabot: "@ + "Internal walabot error: "@ + account,
                    ),
                )
            } else {
                Step::Done(())
            },
        }
    }

    /// Stops the scan and gives the session back.
    ///
    /// The stream is used up, whether it was ever pulled or not and whether it
    /// had ended or not. A refusal of the driver goes to the log and nowhere
    /// else: there is nobody left to tell.
    pub fn stop(self, replies: &[Reply]) -> (turn: Turn<(), Started<'a>>)
        ensures
            match Started::stopping(replies@) {
                Step::Ask(call) => turn.asks(call) && turn.hands_back(self),
                Step::Done(_) => turn matches Turn::Done(_),
            },
    {
        match attempt(Call::Stop, replies) {
            Turn::Ask(call, _) => Turn::Ask(call, self),
            Turn::Done(Ok(_)) => Turn::Done(()),
            Turn::Done(Err(error)) => {
                if replies.len() == 2 {
                    let line: String = "Failed to stop Walabot: ".to_string().concat(
                        error.to_string().as_str(),
                    );
                    proof {
                        assert(line@ =~= "Failed to stop Walabot: "@ + "Internal walabot error: "@
                            + Error::account(replies@[1]));
                    }
                    Turn::Ask(Call::Log(line), self)
                } else {
                    Turn::Done(())
                }
            },
        }
    }
}

/// Leaving a session, from whichever state it is in.
pub trait Disconnect: Sized {
    /// The conversation that leaves the session from this state.
    spec fn leaving(replies: Seq<Reply>) -> Step<()>;

    /// Leaves the session. The state is used up, and what is left is
    /// `Unconnected`, whatever the driver said: leaving never fails.
    fn disconnect(self, replies: &[Reply]) -> (turn: Turn<Unconnected, Self>)
        ensures
            match Self::leaving(replies@) {
                Step::Ask(call) => turn.asks(call) && turn.hands_back(self),
                Step::Done(_) => turn matches Turn::Done(_),
            },
    ;
}

impl Disconnect for Unconnected {
    /// There is no connection to let go of: a line for the log is all.
    open spec fn leaving(replies: Seq<Reply>) -> Step<()> {
        if replies.len() == 0 {
            Step::Ask(CallView::Log("Already disconnected from Walabot, ignoring"@))
        } else {
            Step::Done(())
        }
    }

    fn disconnect(self, replies: &[Reply]) -> (turn: Turn<Unconnected, Unconnected>) {
        if replies.len() == 0 {
            Turn::Ask(Call::Log("Already disconnected from Walabot, ignoring".to_string()), self)
        } else {
            Turn::Done(self)
        }
    }
}

impl Disconnect for Connected {
    /// The call that lets go of the sensor, and a line for the log where the
    /// driver refuses it.
    open spec fn leaving(replies: Seq<Reply>) -> Step<()> {
        if replies.len() == 0 {
            Step::Ask(CallView::Disconnect)
        } else if !replies[0].failed() {
            Step::Done(())
        } else if replies.len() == 1 {
            Step::Ask(CallView::Log("Failed to disconnect from Walabot, ignoring"@))
        } else {
            Step::Done(())
        }
    }

    fn disconnect(self, replies: &[Reply]) -> (turn: Turn<Unconnected, Connected>) {
        if replies.len() == 0 {
            Turn::Ask(Call::Disconnect, self)
        } else if replies[0].code == 0 {
            Turn::Done(Unconnected::new())
        } else if replies.len() == 1 {
            Turn::Ask(Call::Log("Failed to disconnect from Walabot, ignoring".to_string()), self)
        } else {
            Turn::Done(Unconnected::new())
        }
    }
}

/// Where a session stands with the driver.
pub enum Phase {
    Unconnected,
    Connected,
    Scanning,
}

impl Phase {
    /// The calls that are in order while the session stands here. The
    /// driver's last error can be read, and the log written, at any time.
    pub open spec fn permits(self, call: CallView) -> bool {
        match call {
            CallView::GetErrorString | CallView::Log(_) => true,
            CallView::SetSettingsFolder(_) | CallView::ConnectAny => self is Unconnected,
            CallView::Disconnect
            | CallView::GetStatus
            | CallView::SetProfile(_)
            | CallView::SetArena(_, _)
            | CallView::Start => self is Connected,
            CallView::GetArena(_)
            | CallView::Trigger
            | CallView::GetRawImage
            | CallView::Stop => self is Scanning,
        }
    }
}

/// An unconnected session asks for nothing but what is in order before a
/// connection: whatever the replies, opening a session, connecting and leaving
/// name only such calls.
pub proof fn unconnected_keeps_order(folder: Seq<char>, replies: Seq<Reply>)
    ensures
        crate::opening(folder, replies) matches Step::Ask(call) ==> Phase::Unconnected.permits(call),
        attempted(CallView::ConnectAny, replies) matches Step::Ask(call)
            ==> Phase::Unconnected.permits(call),
        <Unconnected as Disconnect>::leaving(replies) matches Step::Ask(call)
            ==> Phase::Unconnected.permits(call),
{
}

/// A connected session asks for nothing but what is in order while connected
/// and not scanning. Starting a scan is the one operation that goes further:
/// once the driver has armed the sensor, what it asks is in order for a scan.
pub proof fn connected_keeps_order(profile: ScanProfile, arena: Arena, replies: Seq<Reply>)
    ensures
        Connected::reporting(replies) matches Step::Ask(call) ==> Phase::Connected.permits(call),
        attempted(CallView::SetProfile(profile), replies) matches Step::Ask(call)
            ==> Phase::Connected.permits(call),
        arena.setting(replies) matches Step::Ask(call) ==> Phase::Connected.permits(call),
        <Connected as Disconnect>::leaving(replies) matches Step::Ask(call)
            ==> Phase::Connected.permits(call),
        Connected::starting(replies) matches Step::Ask(call) ==> if replies.len() > 0
            && !replies[0].failed() {
            Phase::Scanning.permits(call)
        } else {
            Phase::Connected.permits(call)
        },
{
}

/// A stream asks for nothing but what is in order during a scan.
pub proof fn stream_keeps_order(replies: Seq<Reply>)
    ensures
        Started::pulling(replies) matches Step::Ask(call) ==> Phase::Scanning.permits(call),
        Started::stopping(replies) matches Step::Ask(call) ==> Phase::Scanning.permits(call),
{
}

/// Connecting ends in exactly one of two ways, and the result code of the
/// connecting call says which: with zero a connection, with anything else the
/// driver's account of why not.
pub proof fn connect_is_decided_by_its_code(replies: Seq<Reply>)
    requires
        attempted(CallView::ConnectAny, replies) is Done,
    ensures
        replies.len() >= 1,
        !replies[0].failed() <==> attempted(CallView::ConnectAny, replies) matches Step::Done(
            Ok(_),
        ),
        replies[0].failed() <==> replies.len() >= 2 && attempted(CallView::ConnectAny, replies)
            == Step::<Result<Reply, Seq<char>>>::Done(Err(Error::account(replies[1]))),
{
}

/// Stopping a stream calls the driver's stop once: it is the first thing
/// asked, and it is never asked again, neither while stopping nor by any pull
/// before. Stopping is over after three replies at most.
pub proof fn stop_is_called_once(replies: Seq<Reply>)
    ensures
        Started::stopping(replies) == Step::<()>::Ask(CallView::Stop) <==> replies.len() == 0,
        !(Started::pulling(replies) matches Step::Ask(call) && call == CallView::Stop),
        replies.len() >= 3 ==> Started::stopping(replies) is Done,
{
}

/// Leaving a session comes to an end whatever the driver answers: from a
/// connection after two replies at most, without one after the first.
pub proof fn leaving_ends(replies: Seq<Reply>)
    ensures
        replies.len() >= 2 ==> <Connected as Disconnect>::leaving(replies) is Done,
        replies.len() >= 1 ==> <Unconnected as Disconnect>::leaving(replies) is Done,
{
}

} // verus!
