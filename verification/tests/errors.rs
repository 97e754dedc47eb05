//! How failures are reported.

use walabot::error::Error;
use walabot::exchange::{attempt, Turn};
use walabot::ffi::{Call, Payload, Reply};

fn text(bytes: &[u8]) -> Reply {
    Reply { code: 0, payload: Payload::Text(bytes.to_vec()) }
}

fn message(turn: Turn<Error>) -> String {
    match turn {
        Turn::Done(Error::WalabotError(message)) => message,
        other => panic!("{:?}", other),
    }
}

#[test]
fn the_error_text_is_asked_for_first() {
    match Error::from_walabot(&[]) {
        Turn::Ask(call, ()) => assert_eq!(call, Call::GetErrorString),
        Turn::Done(_) => panic!("nothing was asked"),
    }
}

#[test]
fn the_error_carries_the_text_of_the_driver() {
    assert_eq!(message(Error::from_walabot(&[text(b"Sensor not connected")])), "Sensor not connected");
    assert_eq!(message(Error::from_walabot(&[text(b"")])), "");
}

#[test]
fn the_error_text_is_decoded_as_utf8() {
    let bytes = "Gerät nicht verbunden — ε".as_bytes();
    assert!(bytes.len() > "Gerät nicht verbunden — ε".chars().count());
    assert_eq!(message(Error::from_walabot(&[text(bytes)])), "Gerät nicht verbunden — ε");
}

#[test]
fn a_missing_error_text_falls_back() {
    let reply = Reply { code: 0, payload: Payload::Nothing };
    assert_eq!(message(Error::from_walabot(&[reply])), "unknown error");
}

#[test]
fn a_malformed_error_text_falls_back() {
    for bytes in [&[0xFFu8][..], &[b'a', 0x80][..], &[0xC3][..], &[0xED, 0xA0, 0x80][..]] {
        assert_eq!(message(Error::from_walabot(&[text(bytes)])), "unknown error");
    }
}

#[test]
fn a_reply_of_another_kind_holds_no_text() {
    let reply = Reply { code: 3, payload: Payload::Status(1, walabot::number::Double::zero()) };
    assert_eq!(message(Error::from_walabot(&[reply])), "unknown error");
}

#[test]
fn an_attempt_passes_on_code_zero() {
    let replies = [Reply { code: 0, payload: Payload::Nothing }];
    match attempt(Call::Start, &replies) {
        Turn::Done(Ok(reply)) => assert_eq!(reply, &replies[0]),
        other => panic!("{:?}", other),
    }
}

#[test]
fn an_attempt_fails_on_any_other_code() {
    for code in [1, -1, 42, i32::MIN, i32::MAX] {
        let refused = Reply { code, payload: Payload::Nothing };
        match attempt(Call::Start, &[refused]) {
            Turn::Ask(call, ()) => assert_eq!(call, Call::GetErrorString),
            other => panic!("{:?}", other),
        }
        let refused = Reply { code, payload: Payload::Nothing };
        match attempt(Call::Start, &[refused, text(b"busy")]) {
            Turn::Done(Err(Error::WalabotError(message))) => assert_eq!(message, "busy"),
            other => panic!("{:?}", other),
        }
    }
}

#[test]
fn an_attempt_starts_with_its_call() {
    match attempt(Call::Trigger, &[]) {
        Turn::Ask(call, ()) => assert_eq!(call, Call::Trigger),
        other => panic!("{:?}", other),
    }
}

#[test]
fn a_device_error_says_what_it_is() {
    let error = Error::WalabotError("Sensor not connected".to_string());
    assert_eq!(error.to_string(), "Internal walabot error: Sensor not connected");
}

#[test]
fn a_library_error_says_what_it_is() {
    let error = Error::from(libloading::Error::DlOpenUnknown);
    assert!(matches!(error, Error::SharedLib(libloading::Error::DlOpenUnknown)));
    assert_eq!(
        error.to_string(),
        "Shared library error: dlopen failed, but system did not report the error"
    );
    let error = Error::from(libloading::Error::IncompatibleSize);
    assert_eq!(error.to_string(), "Shared library error: requested type cannot possibly work");
}

#[test]
fn a_library_error_converts_with_into() {
    let error: Error = libloading::Error::DlSymUnknown.into();
    assert!(matches!(error, Error::SharedLib(libloading::Error::DlSymUnknown)));
}
