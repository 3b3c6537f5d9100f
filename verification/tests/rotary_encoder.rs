use token_player::rotary_encoder::QuadratureDecoder;
use token_player::rotary_encoder::RotaryEncoderEvent;

fn feed(decoder: &mut QuadratureDecoder, samples: &[(bool, bool)]) -> Vec<RotaryEncoderEvent> {
    let mut events = Vec::new();
    for (event_pin, direction_pin) in samples {
        if let Some(e) = decoder.update(*event_pin, *direction_pin) {
            events.push(e);
        }
    }
    events
}

#[test]
fn a_click_to_the_left_gives_one_turn_left() {
    let mut d = QuadratureDecoder::new();
    // The direction pin rises first, then the event pin; then both fall in the same order.
    let events = feed(&mut d, &[(false, true), (true, true), (true, false), (false, false)]);
    assert_eq!(events, vec![RotaryEncoderEvent::TurnLeft]);
}

#[test]
fn the_left_event_comes_with_the_second_rise() {
    let mut d = QuadratureDecoder::new();
    assert_eq!(d.update(false, true), None);
    assert_eq!(d.update(true, true), Some(RotaryEncoderEvent::TurnLeft));
    assert_eq!(d.update(true, false), None);
    assert_eq!(d.update(false, false), None);
}

#[test]
fn a_click_to_the_right_gives_one_turn_right() {
    let mut d = QuadratureDecoder::new();
    let events = feed(&mut d, &[(true, false), (true, true), (false, true), (false, false)]);
    assert_eq!(events, vec![RotaryEncoderEvent::TurnRight]);
}

#[test]
fn clicks_in_a_row_give_one_event_each() {
    let mut d = QuadratureDecoder::new();
    let left = [(false, true), (true, true), (true, false), (false, false)];
    let right = [(true, false), (true, true), (false, true), (false, false)];
    let mut samples = Vec::new();
    samples.extend_from_slice(&left);
    samples.extend_from_slice(&left);
    samples.extend_from_slice(&right);
    samples.extend_from_slice(&left);
    assert_eq!(
        feed(&mut d, &samples),
        vec![
            RotaryEncoderEvent::TurnLeft,
            RotaryEncoderEvent::TurnLeft,
            RotaryEncoderEvent::TurnRight,
            RotaryEncoderEvent::TurnLeft
        ]
    );
}

#[test]
fn a_sample_without_a_change_is_passed_over() {
    let mut d = QuadratureDecoder::new();
    // The second sample repeats the first: no level has changed.
    let events = feed(
        &mut d,
        &[(false, true), (false, true), (true, true), (true, false), (false, false)],
    );
    assert_eq!(events, vec![RotaryEncoderEvent::TurnLeft]);
}

#[test]
fn a_bounce_before_a_click_does_not_spoil_it() {
    let mut d = QuadratureDecoder::new();
    // Both levels change at once, which no turning dial does, and change back.
    assert_eq!(d.update(true, true), None);
    assert_eq!(d.update(false, false), None);
    let events = feed(&mut d, &[(false, true), (true, true), (true, false), (false, false)]);
    assert_eq!(events, vec![RotaryEncoderEvent::TurnLeft]);
}

#[test]
fn half_a_click_and_back_gives_nothing() {
    let mut d = QuadratureDecoder::new();
    let events = feed(&mut d, &[(false, true), (false, false), (true, false), (false, false)]);
    assert_eq!(events, vec![]);
}
