use keyremap::emission::{build_key_batch, hook_reply, judge_submission, KeyInputError, SyntheticKey};
use keyremap::intercept::{Interceptor, RemapDecision};
use keyremap::key_mapping::{get_key_code_for_scancode, AbstractKey};
use keyremap::layout_decode::DecodedSymbol;

#[test]
fn resolver_maps_the_digit_row() {
    let expected = [
        (0x02u8, AbstractKey::Key1),
        (0x03, AbstractKey::Key2),
        (0x04, AbstractKey::Key3),
        (0x05, AbstractKey::Key4),
        (0x06, AbstractKey::Key5),
        (0x07, AbstractKey::Key6),
        (0x08, AbstractKey::Key7),
        (0x09, AbstractKey::Key8),
        (0x0A, AbstractKey::Key9),
        (0x0B, AbstractKey::Key0),
        (0x0C, AbstractKey::OemMinus),
        (0x0D, AbstractKey::OemPlus),
    ];
    for (scancode, key) in expected {
        assert_eq!(get_key_code_for_scancode(scancode), Some(key));
    }
}

#[test]
fn resolver_rejects_everything_else() {
    assert_eq!(get_key_code_for_scancode(0x00), None);
    assert_eq!(get_key_code_for_scancode(0x01), None);
    assert_eq!(get_key_code_for_scancode(0x0E), None);
    assert_eq!(get_key_code_for_scancode(0x1E), None);
    assert_eq!(get_key_code_for_scancode(0xE0), None);
    assert_eq!(get_key_code_for_scancode(0xFF), None);
}

#[test]
fn scancode_0x0b_suppressed_and_replaced_by_us_zero() {
    let mut interceptor = Interceptor::new();
    let decision = interceptor.handle_event(true, true, false, 0x0B);
    assert_eq!(decision, RemapDecision::Suppress(DecodedSymbol::Unicode('0')));
}

#[test]
fn replacement_is_the_target_layout_decode() {
    // The key right of '0' decodes to '^' under JIS and '=' under US;
    // the replacement must be the US symbol.
    let mut interceptor = Interceptor::new();
    let decision = interceptor.handle_event(true, true, false, 0x0D);
    assert_eq!(decision, RemapDecision::Suppress(DecodedSymbol::Unicode('=')));
}

#[test]
fn whole_allow_list_suppressed_with_us_symbols() {
    let mut interceptor = Interceptor::new();
    let expected = [
        (0x02u8, '1'),
        (0x03, '2'),
        (0x04, '3'),
        (0x05, '4'),
        (0x06, '5'),
        (0x07, '6'),
        (0x08, '7'),
        (0x09, '8'),
        (0x0A, '9'),
        (0x0B, '0'),
        (0x0C, '-'),
        (0x0D, '='),
    ];
    for (scancode, symbol) in expected {
        let decision = interceptor.handle_event(true, true, false, scancode);
        assert_eq!(decision, RemapDecision::Suppress(DecodedSymbol::Unicode(symbol)));
    }
}

#[test]
fn unlisted_scancode_passes_through() {
    let mut interceptor = Interceptor::new();
    let decision = interceptor.handle_event(true, true, false, 0x1E);
    assert_eq!(decision, RemapDecision::Passthrough);
    assert!(!hook_reply(&decision, &None));
}

#[test]
fn key_up_and_unprocessable_events_pass_through() {
    let mut interceptor = Interceptor::new();
    assert_eq!(interceptor.handle_event(true, false, false, 0x0B), RemapDecision::Passthrough);
    assert_eq!(interceptor.handle_event(false, true, false, 0x0B), RemapDecision::Passthrough);
}

#[test]
fn contended_lock_falls_back_to_passthrough() {
    let mut interceptor = Interceptor::new();
    let decision = interceptor.handle_event(true, true, true, 0x0B);
    assert_eq!(decision, RemapDecision::Passthrough);
    // The contended event left both layout states untouched: the next
    // uncontended attempt still decodes from fresh state.
    let decision = interceptor.handle_event(true, true, false, 0x0B);
    assert_eq!(decision, RemapDecision::Suppress(DecodedSymbol::Unicode('0')));
}

#[test]
fn fresh_replay_yields_identical_decisions() {
    let events: Vec<u8> = vec![0x02, 0x1E, 0x0B, 0x0D, 0x00, 0x0C, 0xFF, 0x03];
    let first = keyremap::intercept::run_key_downs(&events);
    let second = keyremap::intercept::run_key_downs(&events);
    assert_eq!(first, second);
    assert_eq!(first.len(), events.len());
    assert_eq!(first[0], RemapDecision::Suppress(DecodedSymbol::Unicode('1')));
    assert_eq!(first[1], RemapDecision::Passthrough);
    assert_eq!(first[2], RemapDecision::Suppress(DecodedSymbol::Unicode('0')));
    assert_eq!(first[4], RemapDecision::Passthrough);
}

#[test]
fn key_batch_is_one_down_then_one_up() {
    let batch = build_key_batch(0x30);
    assert_eq!(
        batch,
        vec![
            SyntheticKey { vk: 0x30, up: false },
            SyntheticKey { vk: 0x30, up: true },
        ]
    );
}

#[test]
fn key_batch_truncates_to_the_virtual_key_width() {
    let batch = build_key_batch(0x0001_0030);
    assert_eq!(batch[0].vk, 0x30);
    assert_eq!(batch[1].vk, 0x30);
}

#[test]
fn full_acceptance_is_success() {
    assert_eq!(judge_submission(2, 2, 0), Ok(()));
}

#[test]
fn partial_acceptance_reports_counts_and_still_suppresses() {
    let judged = judge_submission(2, 1, 5);
    let error = KeyInputError { error_code: 5, accepted: 1, submitted: 2 };
    assert_eq!(judged, Err(error));
    // The decision already made stands: a failed emission is logged, the
    // original event stays blocked.
    let decision = RemapDecision::Suppress(DecodedSymbol::Unicode('0'));
    assert!(hook_reply(&decision, &Some(Err(error))));
}
