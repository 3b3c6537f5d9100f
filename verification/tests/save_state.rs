use token_player::player::PlaybackPos;
use token_player::rfid::Uid;
use token_player::save_state::SaveState;
use token_player::time::Span;
use token_player::volume::Volume;

#[test]
fn a_first_session_keeps_no_playback() {
    let s = SaveState::default();
    assert_eq!(s.playback_state(), None);
    assert_eq!(s.volume(), Volume::new(11));
}

#[test]
fn a_kept_session_comes_back() {
    let mut s = SaveState::default();
    let uid = Uid(0xdead_beef_00);
    let pos = PlaybackPos::from_millis(754_321);
    let stop = Span::from_millis(1_700_000_000_123);
    s.set_playback_state(Some((uid, pos, stop)));
    s.set_volume(Volume::new(7));
    assert_eq!(s.playback_state(), Some((uid, pos, stop)));
    assert_eq!(s.volume(), Volume::new(7));
}

#[test]
fn times_come_back_in_whole_milliseconds() {
    let mut s = SaveState::default();
    let uid = Uid(u64::MAX);
    let pos = PlaybackPos::from_span(Span::new(12, 345_999_999));
    let stop = Span::new(1_700_000_000, 999_999);
    s.set_playback_state(Some((uid, pos, stop)));
    let (back_uid, back_pos, back_stop) = s.playback_state().unwrap();
    assert_eq!(back_uid, uid);
    assert_eq!(back_pos, PlaybackPos::from_millis(12_345));
    assert_eq!(back_stop, Span::from_millis(1_700_000_000_000));
    assert!(pos.span().as_nanos() - back_pos.span().as_nanos() < 1_000_000);
}

#[test]
fn a_playback_can_be_dropped_again() {
    let mut s = SaveState::default();
    s.set_playback_state(Some((Uid(1), PlaybackPos::from_millis(2), Span::from_millis(3))));
    s.set_volume(Volume::new(15));
    s.set_playback_state(None);
    assert_eq!(s.playback_state(), None);
    assert_eq!(s.volume(), Volume::new(15));
}

#[test]
fn the_volume_does_not_touch_the_playback() {
    let mut s = SaveState::default();
    let kept = (Uid(1), PlaybackPos::from_millis(2), Span::from_millis(3));
    s.set_playback_state(Some(kept));
    s.set_volume(Volume::new(0));
    assert_eq!(s.playback_state(), Some(kept));
    assert_eq!(s.volume().amount(), 0);
}
