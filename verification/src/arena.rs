//! The scan arena: the region of space the sensor sweeps.

use vstd::prelude::*;
use vstd::slice::slice_subrange;
use crate::error::Error;
use crate::exchange::{Step, Turn};
use crate::ffi::{Call, CallView, Reply};
use crate::number::Double;

verus! {

/// One coordinate axis of an arena.
#[derive(Clone, Copy, Debug, PartialEq, Eq, Structural)]
pub enum Axis {
    X,
    Y,
    Z,
    R,
    Theta,
    Phi,
}

impl Axis {
    /// The name of the axis.
    pub open spec fn name(self) -> Seq<char> {
        match self {
            Axis::X => "X"@,
            Axis::Y => "Y"@,
            Axis::Z => "Z"@,
            Axis::R => "R"@,
            Axis::Theta => "Theta"@,
            Axis::Phi => "Phi"@,
        }
    }

    /// The letter or word by which the axis is written in formulas.
    pub open spec fn symbol(self) -> Seq<char> {
        match self {
            Axis::X => "x"@,
            Axis::Y => "y"@,
            Axis::Z => "z"@,
            Axis::R => "r"@,
            Axis::Theta => "theta"@,
            Axis::Phi => "phi"@,
        }
    }

    /// The letter or word by which the axis is written in formulas.
    pub fn as_symbol(self) -> (symbol: &'static str)
        ensures
            symbol@ == self.symbol(),
    {
        match self {
            Axis::X => "x",
            Axis::Y => "y",
            Axis::Z => "z",
            Axis::R => "r",
            Axis::Theta => "theta",
            Axis::Phi => "phi",
        }
    }

    /// The name of the axis.
    pub fn as_str(self) -> (name: &'static str)
        ensures
            name@ == self.name(),
    {
        match self {
            Axis::X => "X",
            Axis::Y => "Y",
            Axis::Z => "Z",
            Axis::R => "R",
            Axis::Theta => "Theta",
            Axis::Phi => "Phi",
        }
    }
}

/// What one axis covers: from `min` to `max` in steps of `res`, in the
/// driver's units (centimetres for a distance, degrees for an angle).
#[derive(Clone, Copy, Debug, PartialEq, Eq, Structural)]
pub struct Span {
    pub min: Double,
    pub max: Double,
    pub res: Double,
}

impl Span {
    /// A span is sound when its bounds are in order and its step is positive.
    pub open spec fn valid(self) -> bool {
        self.min.le(self.max) && (Double { bits: 0 }).lt(self.res)
    }

    /// Whether the span is sound.
    pub fn is_valid(&self) -> (r: bool)
        ensures
            r == self.valid(),
    {
        self.min.at_most(&self.max) && Double::zero().below(&self.res)
    }
}

/// The scan region, in polar or in cartesian coordinates.
#[derive(Clone, Copy, Debug, PartialEq, Eq, Structural)]
pub enum Arena {
    Polar { r: Span, theta: Span, phi: Span },
    Cartesian { x: Span, y: Span, z: Span },
}

impl Arena {
    /// The three axes of the arena with their spans, in the order in which
    /// they are handed to the driver.
    pub open spec fn axes(self) -> Seq<(Axis, Span)> {
        match self {
            Arena::Polar { r, theta, phi } => seq![(Axis::R, r), (Axis::Theta, theta), (Axis::Phi, phi)],
            Arena::Cartesian { x, y, z } => seq![(Axis::X, x), (Axis::Y, y), (Axis::Z, z)],
        }
    }

    /// An arena is sound when each of its spans is.
    pub open spec fn valid(self) -> bool {
        forall|i: int| 0 <= i < 3 ==> (#[trigger] self.axes()[i]).1.valid()
    }

    /// The axis at place `i` of `axes`, with its span.
    pub fn axis(&self, i: usize) -> (pair: (Axis, Span))
        requires
            i < 3,
        ensures
            pair == self.axes()[i as int],
    {
        match *self {
            Arena::Polar { r, theta, phi } => {
                if i == 0 {
                    (Axis::R, r)
                } else if i == 1 {
                    (Axis::Theta, theta)
                } else {
                    (Axis::Phi, phi)
                }
            },
            Arena::Cartesian { x, y, z } => {
                if i == 0 {
                    (Axis::X, x)
                } else if i == 1 {
                    (Axis::Y, y)
                } else {
                    (Axis::Z, z)
                }
            },
        }
    }

    /// Whether the arena is sound.
    pub fn is_valid(&self) -> (r: bool)
        ensures
            r == self.valid(),
    {
        let a = self.axis(0).1.is_valid();
        let b = self.axis(1).1.is_valid();
        let c = self.axis(2).1.is_valid();
        a && b && c
    }

    /// The conversation that sets the arena: its three axes in order, each
    /// only once the one before it was taken, and no further than the first
    /// that the driver refuses.
    pub open spec fn setting(self, replies: Seq<Reply>) -> Step<Result<(), Axis>> {
        let axes = self.axes();
        if replies.len() == 0 {
            Step::Ask(CallView::SetArena(axes[0].0, axes[0].1))
        } else if replies[0].failed() {
            Step::Done(Err(axes[0].0))
        } else if replies.len() == 1 {
            Step::Ask(CallView::SetArena(axes[1].0, axes[1].1))
        } else if replies[1].failed() {
            Step::Done(Err(axes[1].0))
        } else if replies.len() == 2 {
            Step::Ask(CallView::SetArena(axes[2].0, axes[2].1))
        } else if replies[2].failed() {
            Step::Done(Err(axes[2].0))
        } else {
            Step::Done(Ok(()))
        }
    }

    /// The arena that stands in where the driver's cannot be read: distances
    /// from 1 to 10 in steps of 0.5, both angles from -45 to 45 in steps of 1.
    pub open spec fn preset() -> Arena {
        Arena::Polar {
            r: Span {
                min: Double { bits: 0x3FF0_0000_0000_0000 },
                max: Double { bits: 0x4024_0000_0000_0000 },
                res: Double { bits: 0x3FE0_0000_0000_0000 },
            },
            theta: Span {
                min: Double { bits: 0xC046_8000_0000_0000 },
                max: Double { bits: 0x4046_8000_0000_0000 },
                res: Double { bits: 0x3FF0_0000_0000_0000 },
            },
            phi: Span {
                min: Double { bits: 0xC046_8000_0000_0000 },
                max: Double { bits: 0x4046_8000_0000_0000 },
                res: Double { bits: 0x3FF0_0000_0000_0000 },
            },
        }
    }

    /// The line for the log when the arena cannot be read along `axis`.
    pub open spec fn complaint(axis: Axis, account: Seq<char>) -> Seq<char> {
        "Failed to get arena "@ + axis.symbol() + ": "@ + "Internal walabot error: "@ + account
    }

    /// How reading the arena ends once the driver has refused to give `axis`:
    /// with the inquiry into the refusal, a line for the log, and the preset.
    pub open spec fn resigning(axis: Axis, replies: Seq<Reply>) -> Step<Arena> {
        match Error::inquiry(replies) {
            Step::Ask(call) => Step::Ask(call),
            Step::Done(account) => if replies.len() == 1 {
                Step::Ask(CallView::Log(Arena::complaint(axis, account)))
            } else {
                Step::Done(Arena::preset())
            },
        }
    }

    /// The conversation that reads the arena from the driver: distance, then
    /// the two angles, and the polar arena they make. The first refusal ends
    /// the reading with the preset arena.
    pub open spec fn reading(replies: Seq<Reply>) -> Step<Arena> {
        if replies.len() == 0 {
            Step::Ask(CallView::GetArena(Axis::R))
        } else if replies[0].failed() {
            Arena::resigning(Axis::R, replies.skip(1))
        } else if replies.len() == 1 {
            Step::Ask(CallView::GetArena(Axis::Theta))
        } else if replies[1].failed() {
            Arena::resigning(Axis::Theta, replies.skip(2))
        } else if replies.len() == 2 {
            Step::Ask(CallView::GetArena(Axis::Phi))
        } else if replies[2].failed() {
            Arena::resigning(Axis::Phi, replies.skip(3))
        } else {
            Step::Done(
                Arena::Polar {
                    r: replies[0].span(),
                    theta: replies[1].span(),
                    phi: replies[2].span(),
                },
            )
        }
    }

    /// Ends a reading that the driver has refused along `axis`.
    fn resign(axis: Axis, replies: &[Reply]) -> (turn: Turn<Arena>)
        ensures
            match Arena::resigning(axis, replies@) {
                Step::Ask(call) => turn.asks(call),
                Step::Done(arena) => turn == Turn::<Arena>::Done(arena),
            },
    {
        match Error::from_walabot(replies) {
            Turn::Ask(call, _) => Turn::Ask(call, ()),
            Turn::Done(error) => {
                if replies.len() == 1 {
                    let line: String = "Failed to get arena ".to_string().concat(
                        axis.as_symbol(),
                    ).concat(": ").concat(error.to_string().as_str());
                    proof {
                        assert(line@ =~= Arena::complaint(axis, Error::account(replies@[0])));
                    }
                    Turn::Ask(Call::Log(line), ())
                } else {
                    Turn::Done(Arena::default())
                }
            },
        }
    }

    /// Reads from the driver the arena that it scans.
    ///
    /// The driver always answers in polar coordinates, whatever the arena was
    /// set in. Where it refuses an axis, the refusal goes to the log and the
    /// preset arena is returned: the arena read here describes a scan and
    /// steers nothing.
    ///
    /// `replies` holds the driver's replies so far to the calls asked for
    /// here.
    pub fn from_walabot(replies: &[Reply]) -> (turn: Turn<Arena>)
        ensures
            match Arena::reading(replies@) {
                Step::Ask(call) => turn.asks(call),
                Step::Done(arena) => turn == Turn::<Arena>::Done(arena),
            },
            turn matches Turn::Done(arena) ==> arena is Polar,
    {
        let axes: [Axis; 3] = [Axis::R, Axis::Theta, Axis::Phi];
        let mut i: usize = 0;
        while i < 3
            invariant
                i <= 3,
                i <= replies.len(),
                axes@ == seq![Axis::R, Axis::Theta, Axis::Phi],
                forall|j: int| 0 <= j < i ==> !(#[trigger] replies@[j]).failed(),
            decreases 3 - i,
        {
            if i == replies.len() {
                return Turn::Ask(Call::GetArena(axes[i]), ());
            }
            if replies[i].code != 0 {
                return Arena::resign(axes[i], slice_subrange(replies, i + 1, replies.len()));
            }
            i += 1;
        }
        Turn::Done(
            Arena::Polar {
                r: replies[0].read_span(),
                theta: replies[1].read_span(),
                phi: replies[2].read_span(),
            },
        )
    }
}

impl Default for Arena {
    fn default() -> (arena: Arena)
        ensures
            arena == Arena::preset(),
            arena.valid(),
    {
        Arena::Polar {
            r: Span {
                min: Double::from_bits(0x3FF0_0000_0000_0000),
                max: Double::from_bits(0x4024_0000_0000_0000),
                res: Double::from_bits(0x3FE0_0000_0000_0000),
            },
            theta: Span {
                min: Double::from_bits(0xC046_8000_0000_0000),
                max: Double::from_bits(0x4046_8000_0000_0000),
                res: Double::from_bits(0x3FF0_0000_0000_0000),
            },
            phi: Span {
                min: Double::from_bits(0xC046_8000_0000_0000),
                max: Double::from_bits(0x4046_8000_0000_0000),
                res: Double::from_bits(0x3FF0_0000_0000_0000),
            },
        }
    }
}

/// The preset arena is sound.
pub proof fn preset_is_valid()
    ensures
        Arena::preset().valid(),
{
}

/// Setting an arena goes no further than the first axis that the driver
/// refuses. Where the call for the axis at place `k` is the first to fail, the
/// error names that axis, and on the way there the calls were those for the
/// axes up to `k`, in order, and no other.
pub proof fn set_arena_stops_at_first_refusal(arena: Arena, replies: Seq<Reply>, k: int)
    requires
        0 <= k < 3,
        k < replies.len(),
        replies[k].failed(),
        forall|j: int| 0 <= j < k ==> !(#[trigger] replies[j]).failed(),
    ensures
        arena.setting(replies) == Step::<Result<(), Axis>>::Done(Err(arena.axes()[k].0)),
        forall|n: int|
            0 <= n <= replies.len() ==> (#[trigger] arena.setting(replies.take(n)) matches Step::Ask(
                call,
            ) ==> n <= k && call == CallView::SetArena(arena.axes()[n].0, arena.axes()[n].1)),
{
    assert forall|n: int| 0 <= n <= replies.len() implies (#[trigger] arena.setting(
        replies.take(n),
    ) matches Step::Ask(call) ==> n <= k && call == CallView::SetArena(
        arena.axes()[n].0,
        arena.axes()[n].1,
    )) by {
        let taken = replies.take(n);
        assert(forall|j: int| 0 <= j < n ==> taken[j] == replies[j]);
    }
}

/// Setting an arena that the driver takes whole applies the three axes in
/// order and then succeeds.
pub proof fn set_arena_applies_all(arena: Arena, replies: Seq<Reply>)
    requires
        replies.len() >= 3,
        forall|j: int| 0 <= j < 3 ==> !(#[trigger] replies[j]).failed(),
    ensures
        arena.setting(replies) == Step::<Result<(), Axis>>::Done(Ok(())),
        forall|n: int|
            0 <= n < 3 ==> #[trigger] arena.setting(replies.take(n)) == Step::<
                Result<(), Axis>,
            >::Ask(CallView::SetArena(arena.axes()[n].0, arena.axes()[n].1)),
{
    assert forall|n: int| 0 <= n < 3 implies #[trigger] arena.setting(replies.take(n)) == Step::<
        Result<(), Axis>,
    >::Ask(CallView::SetArena(arena.axes()[n].0, arena.axes()[n].1)) by {
        let taken = replies.take(n);
        assert(forall|j: int| 0 <= j < n ==> taken[j] == replies[j]);
    }
}

/// The arena read from the driver is polar, whatever the driver answers and
/// whatever was set before.
pub proof fn arena_is_read_polar(replies: Seq<Reply>)
    ensures
        Arena::reading(replies) matches Step::Done(arena) ==> arena is Polar,
{
}

} // verus!
