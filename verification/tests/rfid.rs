use token_player::rfid::poll_wait;
use token_player::rfid::CardDetector;
use token_player::rfid::IdentityRead;
use token_player::rfid::ReadStep;
use token_player::rfid::RfidEvent;
use token_player::rfid::Uid;
use token_player::rfid::MAX_READ_TRIES;
use token_player::time::Span;

#[test]
fn a_serial_number_of_four_bytes_stands_above_one_byte_of_zeros() {
    assert_eq!(Uid::from_bytes(&[0xde, 0xad, 0xbe, 0xef]), Uid(0xdead_beef_00));
    assert_eq!(Uid::from_bytes(&[0, 0, 0, 1]), Uid(0x100));
    assert_eq!(Uid::from_bytes(&[]), Uid(0));
    assert_eq!(Uid::from_bytes(&[0xff]), Uid(0xff00));
}

#[test]
fn a_long_serial_number_loses_its_first_bytes() {
    // Ten bytes: only the last seven fit above the byte of zeros.
    assert_eq!(
        Uid::from_bytes(&[1, 2, 3, 4, 5, 6, 7, 8, 9, 10]),
        Uid(0x04_05_06_07_08_09_0a_00)
    );
    assert_eq!(Uid::from_bytes(&[0xff; 8]), Uid(0xffff_ffff_ffff_ff00));
}

#[test]
fn different_serial_numbers_give_different_tokens() {
    assert_ne!(Uid::from_bytes(&[1, 2, 3, 4]), Uid::from_bytes(&[1, 2, 3, 5]));
    assert_ne!(Uid::from_bytes(&[1, 2, 3, 4]), Uid::from_bytes(&[4, 3, 2, 1]));
}

#[test]
fn a_card_that_comes_is_added_once() {
    let mut d = CardDetector::new();
    let uid = Uid(0x1234);
    assert!(d.needs_identity(true));
    assert_eq!(d.cycle(true, Some(uid)), Some(RfidEvent::Added(uid)));
    assert!(!d.needs_identity(true));
    assert_eq!(d.cycle(true, Some(uid)), None);
    assert_eq!(d.cycle(true, None), None);
}

#[test]
fn a_card_that_goes_is_removed_once() {
    let mut d = CardDetector::new();
    let uid = Uid(7);
    assert_eq!(d.cycle(true, Some(uid)), Some(RfidEvent::Added(uid)));
    assert_eq!(d.cycle(false, None), Some(RfidEvent::Removed));
    assert_eq!(d.cycle(false, None), None);
    assert!(!d.needs_identity(false));
}

#[test]
fn a_card_that_cannot_be_read_has_not_come() {
    let mut d = CardDetector::new();
    assert_eq!(d.cycle(true, None), None);
    assert!(d.needs_identity(true));
    assert_eq!(d.cycle(false, None), None);
    assert_eq!(d.cycle(true, Some(Uid(9))), Some(RfidEvent::Added(Uid(9))));
}

#[test]
fn another_card_is_seen_only_after_the_first_has_gone() {
    let mut d = CardDetector::new();
    assert_eq!(d.cycle(true, Some(Uid(1))), Some(RfidEvent::Added(Uid(1))));
    // The identity is not looked at while a card lies on the reader.
    assert_eq!(d.cycle(true, Some(Uid(2))), None);
    assert_eq!(d.cycle(false, None), Some(RfidEvent::Removed));
    assert_eq!(d.cycle(true, Some(Uid(2))), Some(RfidEvent::Added(Uid(2))));
}

#[test]
fn the_wait_is_what_is_left_of_the_period() {
    let period = Span::from_millis(100);
    assert_eq!(poll_wait(Span::from_millis(30), period), Some(Span::from_millis(70)));
    assert_eq!(poll_wait(Span::zero(), period), Some(period));
    assert_eq!(poll_wait(Span::from_millis(100), period), None);
    assert_eq!(poll_wait(Span::from_millis(250), period), None);
}

#[test]
fn a_read_is_given_up_after_ten_tries() {
    assert_eq!(MAX_READ_TRIES, 10);
    let mut read = IdentityRead::new();
    for _ in 0..9 {
        assert_eq!(read.attempt(None), ReadStep::Retry);
    }
    assert_eq!(read.attempt(None), ReadStep::GiveUp);
    assert_eq!(read.attempt(None), ReadStep::GiveUp);
}

#[test]
fn a_read_ends_with_the_first_serial_number() {
    let mut read = IdentityRead::new();
    assert_eq!(read.attempt(None), ReadStep::Retry);
    assert_eq!(read.attempt(None), ReadStep::Retry);
    assert_eq!(
        read.attempt(Some(&[0xde, 0xad, 0xbe, 0xef])),
        ReadStep::Found(Uid(0xdead_beef_00))
    );
}

#[test]
fn the_last_try_can_still_find_the_card() {
    let mut read = IdentityRead::new();
    for _ in 0..9 {
        assert_eq!(read.attempt(None), ReadStep::Retry);
    }
    assert_eq!(read.attempt(Some(&[1, 2, 3, 4])), ReadStep::Found(Uid(0x01_02_03_04_00)));
}
