//! The values that cross the driver boundary.

use walabot::arena::{Arena, Axis, Span};
use walabot::ffi::{
    AntennaID, AntennaPair, FilterKind, ImagingTarget, Payload, RawVolume, Reply, ScanProfile,
    Status, Target, TargetKind, WalabotAPI,
};
use walabot::number::{Double, INFINITY, SIGN};

fn number(value: f64) -> Double {
    Double::from_bits(value.to_bits())
}

fn span(min: f64, max: f64, res: f64) -> Span {
    Span { min: number(min), max: number(max), res: number(res) }
}

fn samples() -> Vec<f64> {
    vec![
        0.0,
        -0.0,
        0.5,
        -0.5,
        1.0,
        -1.0,
        10.0,
        -45.0,
        45.0,
        0.42,
        1e-310,
        -1e-310,
        f64::MIN_POSITIVE,
        f64::EPSILON,
        f64::MAX,
        f64::MIN,
        f64::INFINITY,
        f64::NEG_INFINITY,
        f64::NAN,
        -f64::NAN,
        f64::from_bits(0x7FF0_0000_0000_0001),
        f64::from_bits(0xFFFF_FFFF_FFFF_FFFF),
    ]
}

#[test]
fn numbers_keep_their_bits() {
    for value in samples() {
        assert_eq!(number(value).bits, value.to_bits());
    }
    assert_eq!(Double::zero().bits, 0.0f64.to_bits());
    assert_eq!(SIGN, (-0.0f64).to_bits());
    assert_eq!(INFINITY, f64::INFINITY.to_bits());
}

#[test]
fn numbers_are_told_from_what_is_none() {
    for value in samples() {
        assert_eq!(number(value).is_number(), !value.is_nan(), "{}", value);
    }
}

#[test]
fn numbers_order_as_doubles_do() {
    for a in samples() {
        for b in samples() {
            assert_eq!(number(a).at_most(&number(b)), a <= b, "{} <= {}", a, b);
            assert_eq!(number(a).below(&number(b)), a < b, "{} < {}", a, b);
        }
    }
}

#[test]
fn the_two_zeros_are_equal_in_order() {
    let plus = number(0.0);
    let minus = number(-0.0);
    assert!(plus.at_most(&minus));
    assert!(minus.at_most(&plus));
    assert!(!plus.below(&minus));
    assert!(!minus.below(&plus));
}

#[test]
fn the_default_arena_has_the_preset_values() {
    assert_eq!(
        Arena::default(),
        Arena::Polar {
            r: span(1.0, 10.0, 0.5),
            theta: span(-45.0, 45.0, 1.0),
            phi: span(-45.0, 45.0, 1.0),
        }
    );
}

#[test]
fn the_default_arena_is_valid() {
    assert!(Arena::default().is_valid());
}

#[test]
fn a_span_needs_ordered_bounds_and_a_positive_step() {
    assert!(span(1.0, 10.0, 0.5).is_valid());
    assert!(span(3.0, 3.0, 0.1).is_valid());
    assert!(span(-45.0, 45.0, 1.0).is_valid());
    assert!(!span(10.0, 1.0, 0.5).is_valid());
    assert!(!span(1.0, 10.0, 0.0).is_valid());
    assert!(!span(1.0, 10.0, -0.5).is_valid());
    assert!(!span(f64::NAN, 10.0, 0.5).is_valid());
    assert!(!span(1.0, f64::NAN, 0.5).is_valid());
    assert!(!span(1.0, 10.0, f64::NAN).is_valid());
}

#[test]
fn an_arena_is_valid_when_each_axis_is() {
    let good = span(-1.0, 1.0, 0.1);
    let bad = span(1.0, -1.0, 0.1);
    assert!(Arena::Cartesian { x: good, y: good, z: good }.is_valid());
    assert!(!Arena::Cartesian { x: bad, y: good, z: good }.is_valid());
    assert!(!Arena::Cartesian { x: good, y: bad, z: good }.is_valid());
    assert!(!Arena::Cartesian { x: good, y: good, z: bad }.is_valid());
    assert!(!Arena::Polar { r: good, theta: good, phi: bad }.is_valid());
}

#[test]
fn the_axes_come_in_the_order_they_are_sent() {
    let arena = Arena::Polar {
        r: span(1.0, 2.0, 0.1),
        theta: span(3.0, 4.0, 0.2),
        phi: span(5.0, 6.0, 0.3),
    };
    assert_eq!(arena.axis(0), (Axis::R, span(1.0, 2.0, 0.1)));
    assert_eq!(arena.axis(1), (Axis::Theta, span(3.0, 4.0, 0.2)));
    assert_eq!(arena.axis(2), (Axis::Phi, span(5.0, 6.0, 0.3)));
    let arena = Arena::Cartesian {
        x: span(1.0, 2.0, 0.1),
        y: span(3.0, 4.0, 0.2),
        z: span(5.0, 6.0, 0.3),
    };
    assert_eq!(arena.axis(0), (Axis::X, span(1.0, 2.0, 0.1)));
    assert_eq!(arena.axis(1), (Axis::Y, span(3.0, 4.0, 0.2)));
    assert_eq!(arena.axis(2), (Axis::Z, span(5.0, 6.0, 0.3)));
}

#[test]
fn the_axes_have_names_and_symbols() {
    let names: Vec<&str> =
        [Axis::X, Axis::Y, Axis::Z, Axis::R, Axis::Theta, Axis::Phi].map(Axis::as_str).to_vec();
    assert_eq!(names, vec!["X", "Y", "Z", "R", "Theta", "Phi"]);
    let symbols: Vec<&str> =
        [Axis::X, Axis::Y, Axis::Z, Axis::R, Axis::Theta, Axis::Phi].map(Axis::as_symbol).to_vec();
    assert_eq!(symbols, vec!["x", "y", "z", "r", "theta", "phi"]);
}

#[test]
fn status_codes_map_to_states() {
    assert_eq!(Status::from(0), Status::Clean);
    assert_eq!(Status::from(1), Status::Initialized);
    assert_eq!(Status::from(2), Status::Connected);
    assert_eq!(Status::from(3), Status::Configured);
    assert_eq!(Status::from(4), Status::Scanning);
    assert_eq!(Status::from(5), Status::Calibrating(number(0.0)));
    assert_eq!(Status::from(6), Status::CalibratingNoMovement(number(0.0)));
}

#[test]
fn the_known_status_codes_are_zero_to_six() {
    for raw in 0..=6 {
        assert!(Status::is_known(raw));
    }
    for raw in [-1, 7, 8, 100, i32::MIN, i32::MAX] {
        assert!(!Status::is_known(raw));
    }
}

#[test]
fn progress_attaches_to_calibrating_states_only() {
    let progress = number(0.42);
    assert_eq!(Status::from(5).and(progress).unwrap(), Status::Calibrating(number(0.42)));
    assert_eq!(
        Status::from(6).and(progress).unwrap(),
        Status::CalibratingNoMovement(number(0.42))
    );
    assert_eq!(Status::from(0).and(progress).unwrap(), Status::Clean);
    assert_eq!(Status::Initialized.and(progress).unwrap(), Status::Initialized);
    assert_eq!(Status::Connected.and(progress).unwrap(), Status::Connected);
    assert_eq!(Status::Configured.and(progress).unwrap(), Status::Configured);
    assert_eq!(Status::Scanning.and(progress).unwrap(), Status::Scanning);
    assert_eq!(
        Status::Calibrating(number(0.1)).and(number(0.9)).unwrap(),
        Status::Calibrating(number(0.9))
    );
}

#[test]
fn progress_comes_back_as_the_number_given() {
    match Status::from(5).and(number(0.42)).unwrap() {
        Status::Calibrating(progress) => assert_eq!(f64::from_bits(progress.bits), 0.42),
        other => panic!("{:?}", other),
    }
}

#[test]
fn scan_profiles_have_the_numbers_of_the_driver() {
    assert_eq!(ScanProfile::ShortRange.code(), 0x0001_0000);
    assert_eq!(ScanProfile::LongRange.code(), 0x0002_0000);
    assert_eq!(ScanProfile::Tracker.code(), 0x0003_0000);
    assert_eq!(ScanProfile::WideBand.code(), 0x0004_0000);
}

#[test]
fn the_defaults_are_short_range_and_no_filter() {
    assert_eq!(ScanProfile::default(), ScanProfile::ShortRange);
    assert_eq!(FilterKind::default(), FilterKind::NoFilter);
}

#[test]
fn a_volume_counts_its_cells() {
    let volume = RawVolume { size_x: 2, size_y: 3, size_z: 4, power: number(1.5) };
    assert_eq!(volume.cell_count(), Some(24));
    let flat = RawVolume { size_x: 100, size_y: 0, size_z: 7, power: number(0.0) };
    assert_eq!(flat.cell_count(), Some(0));
    let large = RawVolume { size_x: 1000, size_y: 1000, size_z: 1000, power: number(0.0) };
    assert_eq!(large.cell_count(), Some(1_000_000_000));
}

#[test]
fn a_volume_with_a_negative_size_has_no_cells_to_count() {
    for (x, y, z) in [(-1, 3, 4), (2, -3, 4), (2, 3, -4), (-2, -3, 4), (i32::MIN, 1, 1)] {
        let volume = RawVolume { size_x: x, size_y: y, size_z: z, power: number(0.0) };
        assert_eq!(volume.cell_count(), None);
    }
}

#[test]
fn a_volume_too_large_for_the_machine_has_no_cells_to_count() {
    let volume =
        RawVolume { size_x: i32::MAX, size_y: i32::MAX, size_z: i32::MAX, power: number(0.0) };
    assert_eq!(volume.cell_count(), None);
    let edge = RawVolume { size_x: i32::MAX, size_y: i32::MAX, size_z: 1, power: number(0.0) };
    let product = (i32::MAX as u128) * (i32::MAX as u128);
    let expected = if product <= usize::MAX as u128 { Some(product as usize) } else { None };
    assert_eq!(edge.cell_count(), expected);
}

#[test]
fn a_reply_without_its_payload_reads_as_zeros() {
    let reply = Reply { code: 0, payload: Payload::Nothing };
    assert_eq!(reply.read_status(), (0, number(0.0)));
    assert_eq!(reply.read_span(), span(0.0, 0.0, 0.0));
    assert_eq!(
        reply.read_volume(),
        RawVolume { size_x: 0, size_y: 0, size_z: 0, power: number(0.0) }
    );
}

#[test]
fn a_reply_gives_what_it_holds() {
    let reply = Reply { code: 0, payload: Payload::Status(5, number(0.42)) };
    assert_eq!(reply.read_status(), (5, number(0.42)));
    let reply = Reply { code: 0, payload: Payload::Span(span(1.0, 2.0, 0.5)) };
    assert_eq!(reply.read_span(), span(1.0, 2.0, 0.5));
    let volume = RawVolume { size_x: 1, size_y: 2, size_z: 3, power: number(7.0) };
    let reply = Reply { code: 0, payload: Payload::Volume(volume) };
    assert_eq!(reply.read_volume(), volume);
}

#[test]
fn antennas_are_known_by_number() {
    assert_eq!(format!("{:?}", AntennaID::new(7)), "AntennaID(7)");
    let pair = AntennaPair { tx_antenna: AntennaID::new(1), rx_antenna: AntennaID::new(4) };
    assert_eq!(
        format!("{:?}", pair),
        "AntennaPair { tx_antenna: AntennaID(1), rx_antenna: AntennaID(4) }"
    );
}

#[test]
fn targets_hold_what_was_detected() {
    let target = Target { x: number(1.0), y: number(2.0), z: number(3.0), amplitude: number(0.5) };
    assert_eq!(f64::from_bits(target.z.bits), 3.0);
    let imaging = ImagingTarget {
        kind: TargetKind::Pipe,
        angle: number(90.0),
        x: number(1.0),
        y: number(2.0),
        z: number(3.0),
        width: number(0.2),
        amplitude: number(0.5),
    };
    assert_eq!(imaging.kind, TargetKind::Pipe);
    assert_ne!(imaging.kind, TargetKind::Stud);
    assert_eq!(f64::from_bits(imaging.width.bits), 0.2);
}

#[test]
fn the_bridge_gives_the_library_it_holds() {
    let library = libloading::Library::from(libloading::os::unix::Library::this());
    let shown = format!("{:?}", library);
    let api = WalabotAPI::from(library);
    let held: &libloading::Library = &api;
    assert_eq!(format!("{:?}", held), shown);
    assert_eq!(format!("{:?}", api), format!("WalabotAPI({})", shown));
}
