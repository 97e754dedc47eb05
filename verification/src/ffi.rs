//! The driver boundary: the calls the library asks for, the replies it takes,
//! and the data that crosses with them.

use std::ops::Deref;
use libloading::Error as LoadFailure;
use libloading::Library;
use vstd::prelude::*;
use vstd::std_specs::convert::FromSpecImpl;
use crate::arena::{Axis, Span};
use crate::error::Error;
use crate::number::Double;

verus! {

/// `libloading::Library`, a loaded shared library. Nothing is known of it
/// here but that it is a value.
#[verifier::external_type_specification]
#[verifier::external_body]
pub struct ExLibrary(libloading::Library);

/// `libloading::Error`, the reason why a shared library could not be loaded
/// or searched. It goes by the name `LoadFailure` here, apart from this
/// library's own `Error`. Nothing is known of it but that it is a value.
#[verifier::external_type_specification]
#[verifier::external_body]
pub struct ExLoadFailure(LoadFailure);

/// A physical antenna element, by the driver's number for it.
#[derive(Clone, Copy, Debug)]
pub struct AntennaID(i32);

impl AntennaID {
    /// The driver's number for the antenna.
    pub closed spec fn id(self) -> i32 {
        self.0
    }

    /// The antenna with the driver's number `id`.
    pub fn new(id: i32) -> (antenna: AntennaID)
        ensures
            antenna.id() == id,
    {
        AntennaID(id)
    }
}

/// One signal path: the antenna that sends and the antenna that receives.
#[derive(Clone, Copy, Debug)]
pub struct AntennaPair {
    pub tx_antenna: AntennaID,
    pub rx_antenna: AntennaID,
}

/// Bridge to the Walabot shared lib
#[derive(Debug)]
pub struct WalabotAPI(Library);

impl WalabotAPI {
    /// The loaded library that the bridge holds.
    pub closed spec fn library(self) -> Library {
        self.0
    }
}

impl FromSpecImpl<Library> for WalabotAPI {
    open spec fn obeys_from_spec() -> bool {
        true
    }

    closed spec fn from_spec(lib: Library) -> WalabotAPI {
        WalabotAPI(lib)
    }
}

impl From<Library> for WalabotAPI {
    /// The bridge that holds `lib`.
    fn from(lib: Library) -> (api: WalabotAPI)
        ensures
            api.library() == lib,
    {
        WalabotAPI(lib)
    }
}

impl Deref for WalabotAPI {
    type Target = Library;

    /// The loaded library, to call into.
    fn deref(&self) -> (lib: &Library)
        ensures
            *lib == self.library(),
    {
        &self.0
    }
}

/// The state of the sensor, as the driver reports it.
#[derive(Clone, Copy, Debug, PartialEq, Eq, Structural)]
pub enum Status {
    Clean,
    Initialized,
    Connected,
    Configured,
    Scanning,
    /// Calibrating, param is percent complete
    Calibrating(Double),
    /// Calibrating while the sensor must not be moved
    CalibratingNoMovement(Double),
}

impl Status {
    /// The status codes that the driver is known to give.
    pub open spec fn known(raw: i32) -> bool {
        0 <= raw <= 6
    }

    /// The status that a code stands for. A calibrating status starts out with
    /// progress zero.
    pub open spec fn decode(raw: i32) -> Status {
        if raw == 0 {
            Status::Clean
        } else if raw == 1 {
            Status::Initialized
        } else if raw == 2 {
            Status::Connected
        } else if raw == 3 {
            Status::Configured
        } else if raw == 4 {
            Status::Scanning
        } else if raw == 5 {
            Status::Calibrating(Double { bits: 0 })
        } else {
            Status::CalibratingNoMovement(Double { bits: 0 })
        }
    }

    /// The status with `param` as its progress, where it has one.
    pub open spec fn with_progress(self, param: Double) -> Status {
        match self {
            Status::Calibrating(_) => Status::Calibrating(param),
            Status::CalibratingNoMovement(_) => Status::CalibratingNoMovement(param),
            _ => self,
        }
    }

    /// Whether the driver is known to give the code.
    pub fn is_known(raw: i32) -> (r: bool)
        ensures
            r == Status::known(raw),
    {
        0 <= raw && raw <= 6
    }

    /// The status that a code of the driver stands for.
    ///
    /// A code outside the known ones means that driver and library do not
    /// belong together; there is no status to give for it.
    pub fn from(rawstatus: i32) -> (status: Status)
        requires
            Status::known(rawstatus),
        ensures
            status == Status::decode(rawstatus),
    {
        match rawstatus {
            0 => Status::Clean,
            1 => Status::Initialized,
            2 => Status::Connected,
            3 => Status::Configured,
            4 => Status::Scanning,
            5 => Status::Calibrating(Double::zero()),
            _ => Status::CalibratingNoMovement(Double::zero()),
        }
    }

    /// Attaches the auxiliary number that came with the status: the progress
    /// of a calibrating status, and nothing to any other.
    pub fn and(self, param: Double) -> (result: Result<Status, Error>)
        ensures
            result matches Ok(status) && status == self.with_progress(param),
    {
        match self {
            Status::Calibrating(_) => Ok(Status::Calibrating(param)),
            Status::CalibratingNoMovement(_) => Ok(Status::CalibratingNoMovement(param)),
            _ => Ok(self),
        }
    }
}

/// Only a calibrating status carries the auxiliary number that comes with a
/// status code. Every other status is what its code says, whatever number came
/// with it.
pub proof fn progress_is_for_calibrating_only(raw: i32, param: Double)
    requires
        Status::known(raw),
    ensures
        raw == 5 ==> Status::decode(raw).with_progress(param) == Status::Calibrating(param),
        raw == 6 ==> Status::decode(raw).with_progress(param) == Status::CalibratingNoMovement(
            param,
        ),
        raw < 5 ==> Status::decode(raw).with_progress(param) == Status::decode(raw),
        raw == 0 ==> Status::decode(raw).with_progress(param) == Status::Clean,
{
}

/// What the driver takes a detected object to be.
#[derive(Clone, Copy, Debug, PartialEq, Eq, Structural)]
pub enum TargetKind {
    Unknown,
    Pipe,
    Stud,
    Stud90,
    MetalStud,
    Other,
}

/// A detected object: where it is, and how strongly it reflects.
#[derive(Clone, Copy, Debug, PartialEq, Eq, Structural)]
pub struct Target {
    pub x: Double,
    pub y: Double,
    pub z: Double,
    pub amplitude: Double,
}

/// A detected object of the in-wall imaging profiles.
#[derive(Clone, Copy, Debug, PartialEq, Eq, Structural)]
pub struct ImagingTarget {
    pub kind: TargetKind,
    pub angle: Double,
    pub x: Double,
    pub y: Double,
    pub z: Double,
    pub width: Double,
    pub amplitude: Double,
}

/// Scanning profiles (sensor configuration).
#[derive(Clone, Copy, Debug, PartialEq, Eq, Structural)]
pub enum ScanProfile {
    ShortRange,
    LongRange,
    Tracker,
    WideBand,
}

impl ScanProfile {
    /// The number by which the driver knows the profile.
    pub open spec fn number(self) -> i32 {
        match self {
            ScanProfile::ShortRange => 0x0001_0000,
            ScanProfile::LongRange => 0x0002_0000,
            ScanProfile::Tracker => 0x0003_0000,
            ScanProfile::WideBand => 0x0004_0000,
        }
    }

    /// The number by which the driver knows the profile.
    pub fn code(self) -> (code: i32)
        ensures
            code == self.number(),
    {
        match self {
            ScanProfile::ShortRange => 0x0001_0000,
            ScanProfile::LongRange => 0x0002_0000,
            ScanProfile::Tracker => 0x0003_0000,
            ScanProfile::WideBand => 0x0004_0000,
        }
    }
}

impl Default for ScanProfile {
    fn default() -> (profile: ScanProfile)
        ensures
            profile == ScanProfile::ShortRange,
    {
        ScanProfile::ShortRange
    }
}

/// The filter the driver applies to dynamic imaging.
#[derive(Clone, Copy, Debug, PartialEq, Eq, Structural)]
pub enum FilterKind {
    /// No filter at all
    NoFilter,
    /// Dynamic-imaging filter for breathing frequencies
    Derivative,
    /// Moving Target Identification
    MTI,
}

impl Default for FilterKind {
    fn default() -> (kind: FilterKind)
        ensures
            kind == FilterKind::NoFilter,
    {
        FilterKind::NoFilter
    }
}

/// One sweep's volume, as the driver describes it: the size of the grid of
/// cells along each axis, and the total power of the sweep.
///
/// The cells themselves stay in the driver's buffer, which holds them until the
/// next trigger or stop and no longer.
#[derive(Clone, Copy, Debug, PartialEq, Eq, Structural)]
pub struct RawVolume {
    pub size_x: i32,
    pub size_y: i32,
    pub size_z: i32,
    pub power: Double,
}

impl RawVolume {
    /// The number of cells in the grid, where the sizes describe one that
    /// this machine can address.
    pub open spec fn cells(self) -> Option<int> {
        if 0 <= self.size_x && 0 <= self.size_y && 0 <= self.size_z && self.size_x * self.size_y
            * self.size_z <= usize::MAX {
            Some(self.size_x * self.size_y * self.size_z)
        } else {
            None
        }
    }

    /// The number of cells in the driver's buffer for this volume: none where
    /// a size is negative or the product does not fit the machine.
    pub fn cell_count(&self) -> (count: Option<usize>)
        ensures
            self.cells() matches Some(n) ==> count == Some(n as usize),
            self.cells() is None ==> count is None,
    {
        if self.size_x < 0 || self.size_y < 0 || self.size_z < 0 {
            return None;
        }
        let x: u128 = self.size_x as u128;
        let y: u128 = self.size_y as u128;
        let z: u128 = self.size_z as u128;
        assert(x * y <= 0x8000_0000 * 0x8000_0000) by (nonlinear_arith)
            requires
                x <= 0x8000_0000,
                y <= 0x8000_0000,
        ;
        let area: u128 = x * y;
        assert(area * z <= 0x4000_0000_0000_0000 * 0x8000_0000) by (nonlinear_arith)
            requires
                area <= 0x4000_0000_0000_0000,
                z <= 0x8000_0000,
        ;
        let product: u128 = area * z;
        if product <= usize::MAX as u128 {
            Some(product as usize)
        } else {
            None
        }
    }
}

/// One thing the library asks of its surroundings: a call into the driver,
/// or a line for the log.
///
/// The library makes none of these calls itself. Whoever holds the driver
/// makes the call, and hands back what came of it as a [`Reply`].
#[derive(Debug, PartialEq, Eq)]
pub enum Call {
    /// Tell the driver where its settings are kept.
    SetSettingsFolder(String),
    /// Read the text of the driver's last error.
    GetErrorString,
    /// Connect to whichever sensor is attached.
    ConnectAny,
    /// Let go of the sensor.
    Disconnect,
    /// Read the state of the sensor.
    GetStatus,
    /// Choose the scan profile.
    SetProfile(ScanProfile),
    /// Set what the arena covers along one axis.
    SetArena(Axis, Span),
    /// Read what the arena covers along one axis.
    GetArena(Axis),
    /// Arm the sensor for scanning.
    Start,
    /// Stand the sensor down.
    Stop,
    /// Make one sweep.
    Trigger,
    /// Read the volume of the last sweep.
    GetRawImage,
    /// Write a line to the log. It is answered by any reply at all.
    Log(String),
}

/// A [`Call`] with its texts as sequences of characters.
pub enum CallView {
    SetSettingsFolder(Seq<char>),
    GetErrorString,
    ConnectAny,
    Disconnect,
    GetStatus,
    SetProfile(ScanProfile),
    SetArena(Axis, Span),
    GetArena(Axis),
    Start,
    Stop,
    Trigger,
    GetRawImage,
    Log(Seq<char>),
}

impl View for Call {
    type V = CallView;

    open spec fn view(&self) -> CallView {
        match self {
            Call::SetSettingsFolder(folder) => CallView::SetSettingsFolder(folder@),
            Call::GetErrorString => CallView::GetErrorString,
            Call::ConnectAny => CallView::ConnectAny,
            Call::Disconnect => CallView::Disconnect,
            Call::GetStatus => CallView::GetStatus,
            Call::SetProfile(profile) => CallView::SetProfile(*profile),
            Call::SetArena(axis, span) => CallView::SetArena(*axis, *span),
            Call::GetArena(axis) => CallView::GetArena(*axis),
            Call::Start => CallView::Start,
            Call::Stop => CallView::Stop,
            Call::Trigger => CallView::Trigger,
            Call::GetRawImage => CallView::GetRawImage,
            Call::Log(line) => CallView::Log(line@),
        }
    }
}

/// What a driver call wrote through its out-parameters.
#[derive(Debug, PartialEq, Eq)]
pub enum Payload {
    /// The call has no out-parameter, or left it untouched.
    Nothing,
    /// The status code and its auxiliary number.
    Status(i32, Double),
    /// What the arena covers along the axis asked for.
    Span(Span),
    /// The volume of the last sweep.
    Volume(RawVolume),
    /// The bytes of a text, without the closing zero.
    Text(Vec<u8>),
}

/// What came of a [`Call`]: the driver's result code, zero for success, and
/// what the call wrote.
///
/// A reply that lacks the payload its call would write reads as the driver
/// leaving its out-parameters untouched: zeros, and no text.
#[derive(Debug, PartialEq, Eq)]
pub struct Reply {
    pub code: i32,
    pub payload: Payload,
}

impl Reply {
    /// Whether the driver reported a failure.
    pub open spec fn failed(self) -> bool {
        self.code != 0
    }

    /// The status code in the reply.
    pub open spec fn status_code(self) -> i32 {
        match self.payload {
            Payload::Status(raw, _) => raw,
            _ => 0,
        }
    }

    /// The auxiliary number that came with the status.
    pub open spec fn param(self) -> Double {
        match self.payload {
            Payload::Status(_, param) => param,
            _ => Double { bits: 0 },
        }
    }

    /// The span in the reply.
    pub open spec fn span(self) -> Span {
        match self.payload {
            Payload::Span(span) => span,
            _ => Span { min: Double { bits: 0 }, max: Double { bits: 0 }, res: Double { bits: 0 } },
        }
    }

    /// The volume in the reply.
    pub open spec fn volume(self) -> RawVolume {
        match self.payload {
            Payload::Volume(volume) => volume,
            _ => RawVolume { size_x: 0, size_y: 0, size_z: 0, power: Double { bits: 0 } },
        }
    }

    /// The bytes of the text in the reply, if it holds one.
    pub open spec fn text(self) -> Option<Seq<u8>> {
        match self.payload {
            Payload::Text(bytes) => Some(bytes@),
            _ => None,
        }
    }

    /// Reads the status code and its auxiliary number.
    pub fn read_status(&self) -> (status: (i32, Double))
        ensures
            status == (self.status_code(), self.param()),
    {
        match self.payload {
            Payload::Status(raw, param) => (raw, param),
            _ => (0, Double::zero()),
        }
    }

    /// Reads the span.
    pub fn read_span(&self) -> (span: Span)
        ensures
            span == self.span(),
    {
        match self.payload {
            Payload::Span(span) => span,
            _ => Span { min: Double::zero(), max: Double::zero(), res: Double::zero() },
        }
    }

    /// Reads the volume.
    pub fn read_volume(&self) -> (volume: RawVolume)
        ensures
            volume == self.volume(),
    {
        match self.payload {
            Payload::Volume(volume) => volume,
            _ => RawVolume { size_x: 0, size_y: 0, size_z: 0, power: Double::zero() },
        }
    }
}

} // verus!
