//! How an operation talks to the driver without holding it.
//!
//! Every operation of this library is a conversation: a run of calls, each of
//! which depends on what the calls before it returned. An operation is written
//! as a function of the replies received so far. Given none, it names its first
//! call; given the replies to all the calls it has named, it names the next
//! one, or says what the operation came to.

use vstd::prelude::*;
use vstd::slice::slice_subrange;
use crate::error::{Error, ErrorView};
use crate::ffi::{Call, CallView, Reply};

verus! {

/// What an operation says, given the replies so far.
///
/// `Ask(call, handle)`: make `call`, add its reply to the replies, and put the
/// same operation to `handle` again. Operations on a borrowed handle give `()`
/// for it, and are put to the handle they borrowed.
///
/// `Done(outcome)`: the operation is over; no further call is to be made for it.
#[derive(Debug)]
#[must_use]
pub enum Turn<T, H = ()> {
    Ask(Call, H),
    Done(T),
}

/// A [`Turn`] in contracts: the call asked for, or the outcome as the
/// operation's contract describes it.
pub enum Step<V> {
    Ask(CallView),
    Done(V),
}

impl<T, H> Turn<T, H> {
    /// The turn asks for `call`.
    pub open spec fn asks(self, call: CallView) -> bool {
        self matches Turn::Ask(asked, _) && asked@ == call
    }

    /// The turn asks for something, and hands `handle` back to be asked again.
    pub open spec fn hands_back(self, handle: H) -> bool {
        self matches Turn::Ask(_, given) && given == handle
    }
}

impl<T, H> Turn<Result<T, Error>, H> {
    /// The operation is over, and has failed with the driver's `account` of
    /// the failure.
    pub open spec fn fails(self, account: Seq<char>) -> bool {
        self matches Turn::Done(Err(error)) && error@ == ErrorView::WalabotError(account)
    }
}

/// A call that the driver may refuse: given no reply, the call itself; given
/// a reply with result code zero, that reply; given one with another code, the
/// inquiry into the driver's last error, and the account it ends with.
pub open spec fn attempted(call: CallView, replies: Seq<Reply>) -> Step<Result<Reply, Seq<char>>> {
    if replies.len() == 0 {
        Step::Ask(call)
    } else if !replies[0].failed() {
        Step::Done(Ok(replies[0]))
    } else {
        match Error::inquiry(replies.skip(1)) {
            Step::Ask(next) => Step::Ask(next),
            Step::Done(account) => Step::Done(Err(account)),
        }
    }
}

/// Makes a call that the driver may refuse, and reads the driver's account of
/// the refusal where it does.
///
/// `replies` holds the replies so far, to `call` first.
pub fn attempt<'a>(call: Call, replies: &'a [Reply]) -> (turn: Turn<Result<&'a Reply, Error>>)
    ensures
        match attempted(call@, replies@) {
            Step::Ask(next) => turn.asks(next),
            Step::Done(Ok(reply)) => turn matches Turn::Done(Ok(given)) && *given == reply,
            Step::Done(Err(account)) => turn.fails(account),
        },
{
    if replies.len() == 0 {
        return Turn::Ask(call, ());
    }
    if replies[0].code == 0 {
        return Turn::Done(Ok(&replies[0]));
    }
    match Error::from_walabot(slice_subrange(replies, 1, replies.len())) {
        Turn::Ask(next, _) => Turn::Ask(next, ()),
        Turn::Done(error) => Turn::Done(Err(error)),
    }
}

} // verus!
