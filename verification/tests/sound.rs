use token_player::sound::AudioOutput;
use token_player::sound::OUTPUT_SAMPLE_RATE;
use token_player::time::Span;

#[test]
fn the_output_runs_at_44100_frames_a_second() {
    assert_eq!(OUTPUT_SAMPLE_RATE, 44100);
    assert_eq!(AudioOutput::new(Span::zero()).sample_rate(), 44100);
}

#[test]
fn the_writer_sleeps_off_what_it_is_ahead_beyond_the_headroom() {
    let mut out = AudioOutput::new(Span::zero());
    // One second of sound written within half a second.
    let buf = vec![0i16; 88200];
    let sleep = out.play_buf(&buf, Span::from_millis(500));
    assert_eq!(sleep, Some(Span::from_millis(400)));
}

#[test]
fn the_writer_does_not_sleep_within_the_headroom() {
    let mut out = AudioOutput::new(Span::zero());
    let buf = vec![0i16; 1024];
    assert_eq!(out.play_buf(&buf, Span::zero()), None);
    // 100 ms of sound at once: exactly the headroom, nothing to sleep.
    let mut out = AudioOutput::new(Span::zero());
    let buf = vec![0i16; 8820];
    assert_eq!(out.play_buf(&buf, Span::zero()), Some(Span::zero()));
    let mut out = AudioOutput::new(Span::zero());
    let buf = vec![0i16; 8818];
    assert_eq!(out.play_buf(&buf, Span::zero()), None);
}

#[test]
fn the_frames_add_up_over_the_writes() {
    let mut out = AudioOutput::new(Span::from_secs(10));
    let buf = vec![0i16; 44100];
    // Half a second each; the clock stands still at the start.
    assert_eq!(out.play_buf(&buf, Span::from_secs(10)), Some(Span::from_millis(400)));
    assert_eq!(out.play_buf(&buf, Span::from_secs(10)), Some(Span::from_millis(900)));
    assert_eq!(out.play_buf(&buf, Span::from_secs(11)), Some(Span::from_millis(400)));
    assert_eq!(out.play_buf(&buf, Span::from_secs(13)), None);
}

#[test]
fn the_playing_time_counts_whole_microseconds() {
    let mut out = AudioOutput::new(Span::zero());
    // 4411 frames take 100022.67 microseconds.
    let buf = vec![0i16; 8822];
    assert_eq!(out.play_buf(&buf, Span::zero()), Some(Span::from_micros(22)));
}

#[test]
fn a_recovered_device_starts_the_count_anew() {
    let mut out = AudioOutput::new(Span::zero());
    let buf = vec![0i16; 88200];
    assert_eq!(out.play_buf(&buf, Span::zero()), Some(Span::from_millis(900)));
    out.recover(Span::from_secs(5));
    assert_eq!(out.play_buf(&buf, Span::from_secs(5)), Some(Span::from_millis(900)));
    assert_eq!(out.sample_rate(), 44100);
}

#[test]
fn a_clock_that_ran_backwards_counts_as_no_time() {
    let mut out = AudioOutput::new(Span::from_secs(5));
    let buf = vec![0i16; 88200];
    assert_eq!(out.play_buf(&buf, Span::from_secs(4)), Some(Span::from_millis(900)));
    assert!(out.has_room(1_000_000));
}
