//! Behavior of the enumeration cursor protocol and its driver decisions.

use mscoree::enumeration::{
    classify_next, collect_yielded, cursor_step, select_name, wide_prefix_len, CursorEvent,
    CursorState, DriverAction, NextResult,
};
use mscoree::hresult::{E_FAIL, S_FALSE, S_OK};

#[test]
fn empty_category_terminates_after_first_next() {
    // The engine signals exhaustion at once (success status, null handle):
    // nothing is yielded and the loop is over.
    let responses = vec![NextResult { hr: S_FALSE, handle: 0 }];
    let (handles, exhausted) = collect_yielded(&responses);
    assert!(handles.is_empty());
    assert!(exhausted);
}

#[test]
fn yields_until_first_exhaustion_signal() {
    let responses = vec![
        NextResult { hr: S_OK, handle: 11 },
        NextResult { hr: S_OK, handle: 22 },
        NextResult { hr: S_FALSE, handle: 0 },
        NextResult { hr: S_OK, handle: 33 },
    ];
    let (handles, exhausted) = collect_yielded(&responses);
    assert_eq!(handles, vec![11, 22]);
    assert!(exhausted);
}

#[test]
fn a_null_handle_alone_stops_the_loop() {
    let responses = vec![
        NextResult { hr: S_OK, handle: 5 },
        NextResult { hr: S_OK, handle: 0 },
        NextResult { hr: S_OK, handle: 7 },
    ];
    let (handles, _) = collect_yielded(&responses);
    assert_eq!(handles, vec![5]);
}

#[test]
fn a_failure_status_alone_stops_the_loop() {
    let responses = vec![
        NextResult { hr: S_OK, handle: 5 },
        NextResult { hr: E_FAIL, handle: 9 },
        NextResult { hr: S_OK, handle: 7 },
    ];
    let (handles, _) = collect_yielded(&responses);
    assert_eq!(handles, vec![5]);
}

#[test]
fn running_out_of_recorded_outcomes_is_not_exhaustion() {
    let responses = vec![NextResult { hr: S_OK, handle: 4 }];
    let (handles, exhausted) = collect_yielded(&responses);
    assert_eq!(handles, vec![4]);
    assert!(!exhausted);
}

#[test]
fn classification_of_one_outcome() {
    assert!(classify_next(&NextResult { hr: S_OK, handle: 1 }));
    assert!(!classify_next(&NextResult { hr: S_OK, handle: 0 }));
    assert!(!classify_next(&NextResult { hr: E_FAIL, handle: 1 }));
    assert!(!classify_next(&NextResult { hr: S_FALSE, handle: 0 }));
}

#[test]
fn cursor_follows_the_protocol() {
    let (s, a) = cursor_step(CursorState::NotStarted, CursorEvent::Started(S_OK));
    assert_eq!((s, a), (CursorState::Enumerating, DriverAction::Ignore));

    let (s, a) = cursor_step(s, CursorEvent::Advanced(S_OK, 42));
    assert_eq!((s, a), (CursorState::Enumerating, DriverAction::UseHandle(42)));

    let (s, a) = cursor_step(s, CursorEvent::Advanced(S_FALSE, 0));
    assert_eq!((s, a), (CursorState::Ended, DriverAction::Finish));

    let (s, a) = cursor_step(s, CursorEvent::Closed);
    assert_eq!((s, a), (CursorState::Ended, DriverAction::Ignore));
}

#[test]
fn failed_start_ends_the_cursor() {
    let (s, a) = cursor_step(CursorState::NotStarted, CursorEvent::Started(E_FAIL));
    assert_eq!((s, a), (CursorState::Ended, DriverAction::Finish));
}

#[test]
fn next_is_ignored_when_the_cursor_is_not_enumerating() {
    let (s, a) = cursor_step(CursorState::Ended, CursorEvent::Advanced(S_OK, 9));
    assert_eq!((s, a), (CursorState::Ended, DriverAction::Ignore));
    let (s, a) = cursor_step(CursorState::NotStarted, CursorEvent::Advanced(S_OK, 9));
    assert_eq!((s, a), (CursorState::NotStarted, DriverAction::Ignore));
}

#[test]
fn display_name_wins_over_plain_name() {
    let display = Some(b"rich".to_vec());
    let plain = Some(b"plain".to_vec());
    assert_eq!(select_name(display.clone(), plain.clone()), display);
    assert_eq!(select_name(None, plain.clone()), plain);
    assert_eq!(select_name(None, None), None);
}

#[test]
fn wide_buffer_text_ends_at_the_first_null() {
    let buf: Vec<u16> = vec![104, 105, 0, 120, 121];
    assert_eq!(wide_prefix_len(&buf, 5), 2);
    assert_eq!(wide_prefix_len(&buf, 2), 2);
    assert_eq!(wide_prefix_len(&buf, 0), 0);
    let nonul: Vec<u16> = vec![104, 105];
    assert_eq!(wide_prefix_len(&nonul, 2), 2);
}
