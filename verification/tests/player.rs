use token_player::player::frame_at;
use token_player::player::AudioSourceError;
use token_player::player::Decoded;
use token_player::player::Phase;
use token_player::player::PlaybackPos;
use token_player::player::Player;
use token_player::player::FADE_TIME_MILLIS;
use token_player::player::MUTED_BUF_LEN;
use token_player::sound::AudioOutput;
use token_player::time::Span;
use token_player::volume::Volume;

fn player(volume: u8) -> Player {
    Player::new(AudioOutput::new(Span::zero()), Volume::new(volume))
}

/// A packet of `frames` frames, each sample 16384.
fn packet(frames: usize) -> Decoded {
    Decoded::Samples(vec![16384; 2 * frames])
}

/// Pushes `count` packets of ten milliseconds at 44100 frames a second.
fn push_10ms(p: &mut Player, count: usize) {
    for _ in 0..count {
        p.push_samples(packet(441));
    }
}

/// The volume step at which a sample of 16384 came out as `sample`.
fn level_of(sample: i16) -> u32 {
    15 - (16384 / sample as i32).trailing_zeros()
}

#[test]
fn a_new_engine_is_idle() {
    let p = player(11);
    assert_eq!(p.phase(), Phase::Idle);
    assert!(p.idle());
    assert!(!p.playing());
    assert_eq!(p.playback_pos(), None);
    assert_eq!(p.current_volume(), Volume::new(11));
}

#[test]
fn engine_goes_from_load_to_playing_through_a_fade() {
    assert_eq!(FADE_TIME_MILLIS, 500);
    let mut p = player(15);
    assert_eq!(p.load_file(Ok(44100), None), Ok(()));
    assert_eq!(p.phase(), Phase::Paused);
    assert!(!p.idle());
    assert!(!p.playing());
    p.play();
    assert_eq!(p.phase(), Phase::FadeIn);
    assert!(p.playing());
    // The fade is over once a step begins half a second in.
    push_10ms(&mut p, 50);
    assert_eq!(p.playback_pos(), Some(PlaybackPos::from_millis(500)));
    assert_eq!(p.phase(), Phase::FadeIn);
    push_10ms(&mut p, 1);
    assert_eq!(p.phase(), Phase::Playing);
    push_10ms(&mut p, 100);
    assert_eq!(p.phase(), Phase::Playing);
    assert_eq!(p.playback_pos(), Some(PlaybackPos::from_millis(1510)));
}

#[test]
fn a_fade_in_rises_step_by_step() {
    let mut p = player(15);
    p.load_file(Ok(44100), None).unwrap();
    p.play();
    // Nothing is heard at the start.
    assert_eq!(p.push_samples(packet(441)), vec![0; 882]);
    push_10ms(&mut p, 24);
    // 250 ms in: 7.5 steps, which is 8.
    let out = p.push_samples(packet(441));
    assert_eq!(out, vec![128; 882]);
    assert_eq!(level_of(out[0]), 8);
    push_10ms(&mut p, 23);
    // 490 ms in: 14.7 steps, which is 15.
    assert_eq!(p.push_samples(packet(441)), vec![16384; 882]);
}

#[test]
fn a_fade_in_rounds_to_the_nearest_step() {
    let mut p = player(10);
    p.load_file(Ok(1000), None).unwrap();
    p.play();
    // At 1000 frames a second one frame is one millisecond.
    p.push_samples(packet(24));
    // 24 ms in: 0.48 steps, which is none.
    assert_eq!(p.push_samples(packet(1))[0], 16384 >> 15);
    // 25 ms in: 0.5 steps, which is one.
    assert_eq!(level_of(p.push_samples(packet(49))[0]), 1);
    // 74 ms in: 1.48 steps.
    assert_eq!(level_of(p.push_samples(packet(1))[0]), 1);
    // 75 ms in: 1.5 steps.
    assert_eq!(level_of(p.push_samples(packet(350))[0]), 2);
    // 425 ms in: 8.5 steps.
    assert_eq!(level_of(p.push_samples(packet(1))[0]), 9);
}

#[test]
fn a_pause_fades_out_and_ends_paused() {
    let mut p = player(15);
    p.load_file(Ok(44100), None).unwrap();
    p.play();
    push_10ms(&mut p, 60);
    assert_eq!(p.phase(), Phase::Playing);
    p.pause();
    assert_eq!(p.phase(), Phase::FadeOut);
    assert!(p.playing());
    // The fade-out begins at the full volume.
    assert_eq!(p.push_samples(packet(441)), vec![16384; 882]);
    push_10ms(&mut p, 24);
    // 250 ms in: 7.5 steps are left, which is 8.
    assert_eq!(p.push_samples(packet(441)), vec![128; 882]);
    push_10ms(&mut p, 24);
    assert_eq!(p.phase(), Phase::FadeOut);
    // 500 ms in: nothing is left, and the fade is over after this step.
    assert_eq!(p.push_samples(packet(441)), vec![0; 882]);
    assert_eq!(p.phase(), Phase::Paused);
    assert!(!p.playing());
    assert_eq!(p.playback_pos(), Some(PlaybackPos::from_millis(1110)));
}

#[test]
fn a_fade_out_rounds_to_the_nearest_step() {
    let mut p = player(10);
    p.load_file(Ok(1000), None).unwrap();
    p.play();
    p.push_samples(packet(600));
    p.push_samples(packet(1));
    assert_eq!(p.phase(), Phase::Playing);
    p.pause();
    p.push_samples(packet(425));
    // 425 ms in: 1.5 steps are left, which is 2.
    assert_eq!(level_of(p.push_samples(packet(1))[0]), 2);
    // 426 ms in: 1.48 steps are left.
    assert_eq!(level_of(p.push_samples(packet(1))[0]), 1);
}

#[test]
fn a_pause_in_a_fade_in_fades_out_from_the_full_volume() {
    let mut p = player(15);
    p.load_file(Ok(44100), None).unwrap();
    p.play();
    push_10ms(&mut p, 25);
    assert_eq!(p.phase(), Phase::FadeIn);
    p.pause();
    assert_eq!(p.phase(), Phase::FadeOut);
    // The fade-out sets in where the source stands, 250 ms in.
    assert_eq!(p.push_samples(packet(441)), vec![16384; 882]);
    push_10ms(&mut p, 49);
    assert_eq!(p.phase(), Phase::FadeOut);
    push_10ms(&mut p, 1);
    assert_eq!(p.phase(), Phase::Paused);
    assert_eq!(p.playback_pos(), Some(PlaybackPos::from_millis(760)));
}

#[test]
fn play_in_a_fade_out_turns_the_fade_round() {
    let mut p = player(15);
    p.load_file(Ok(44100), None).unwrap();
    p.play();
    push_10ms(&mut p, 60);
    p.pause();
    push_10ms(&mut p, 10);
    assert_eq!(p.phase(), Phase::FadeOut);
    p.play();
    assert_eq!(p.phase(), Phase::FadeIn);
    // The fade-in counts from where the fade-out set in: 100 ms, 3 steps.
    assert_eq!(level_of(p.push_samples(packet(441))[0]), 3);
    push_10ms(&mut p, 39);
    assert_eq!(p.phase(), Phase::FadeIn);
    push_10ms(&mut p, 1);
    assert_eq!(p.phase(), Phase::Playing);
}

#[test]
fn play_and_pause_do_nothing_where_they_do_not_apply() {
    let mut p = player(15);
    p.play();
    assert_eq!(p.phase(), Phase::Idle);
    p.pause();
    assert_eq!(p.phase(), Phase::Idle);
    p.load_file(Ok(44100), None).unwrap();
    p.pause();
    assert_eq!(p.phase(), Phase::Paused);
    p.play();
    p.play();
    assert_eq!(p.phase(), Phase::FadeIn);
    push_10ms(&mut p, 51);
    p.play();
    assert_eq!(p.phase(), Phase::Playing);
}

#[test]
fn silence_goes_out_while_nothing_plays() {
    assert_eq!(MUTED_BUF_LEN, 1024);
    let mut p = player(15);
    assert_eq!(p.push_samples(Decoded::Skipped), vec![0; 1024]);
    assert_eq!(p.push_samples(packet(10)), vec![0; 1024]);
    assert_eq!(p.phase(), Phase::Idle);
    p.load_file(Ok(44100), None).unwrap();
    assert_eq!(p.push_samples(packet(10)), vec![0; 1024]);
    assert_eq!(p.push_samples(Decoded::End), vec![0; 1024]);
    assert_eq!(p.phase(), Phase::Paused);
    assert_eq!(p.playback_pos(), Some(PlaybackPos::from_millis(0)));
}

#[test]
fn the_end_of_the_stream_leaves_the_engine_idle() {
    let mut p = player(15);
    p.load_file(Ok(44100), None).unwrap();
    p.play();
    push_10ms(&mut p, 60);
    assert_eq!(p.push_samples(Decoded::End), Vec::<i16>::new());
    assert_eq!(p.phase(), Phase::Idle);
    assert_eq!(p.playback_pos(), None);

    let mut q = player(15);
    q.load_file(Ok(44100), None).unwrap();
    q.play();
    assert_eq!(q.push_samples(Decoded::End), Vec::<i16>::new());
    assert_eq!(q.phase(), Phase::Idle);
}

#[test]
fn a_packet_that_is_passed_over_changes_nothing() {
    let mut p = player(15);
    p.load_file(Ok(44100), None).unwrap();
    p.play();
    push_10ms(&mut p, 60);
    let pos = p.playback_pos();
    assert_eq!(p.push_samples(Decoded::Skipped), Vec::<i16>::new());
    assert_eq!(p.phase(), Phase::Playing);
    assert_eq!(p.playback_pos(), pos);
}

#[test]
fn the_volume_and_the_rate_shape_what_goes_out() {
    let mut p = player(13);
    p.load_file(Ok(22050), None).unwrap();
    p.play();
    p.push_samples(Decoded::Samples(vec![0; 2 * 22050]));
    p.push_samples(Decoded::Samples(vec![0; 2]));
    assert_eq!(p.phase(), Phase::Playing);
    // Each frame goes out twice, at a quarter of its amplitude.
    assert_eq!(
        p.push_samples(Decoded::Samples(vec![400, -400, 800, -801])),
        vec![100, -100, 100, -100, 200, -201, 200, -201]
    );
    *p.volume() += 1;
    assert_eq!(
        p.push_samples(Decoded::Samples(vec![400, -400])),
        vec![200, -200, 200, -200]
    );
    *p.volume() -= 14;
    assert_eq!(p.current_volume(), Volume::new(0));
}

#[test]
fn a_file_that_cannot_be_opened_leaves_the_engine_as_it_is() {
    let mut p = player(15);
    assert_eq!(p.load_file(Err(AudioSourceError::Io), None), Err(AudioSourceError::Io));
    assert_eq!(p.phase(), Phase::Idle);
    assert_eq!(
        p.load_file(Err(AudioSourceError::Vorbis), Some(PlaybackPos::from_millis(5))),
        Err(AudioSourceError::Vorbis)
    );
    assert_eq!(p.phase(), Phase::Idle);
    p.load_file(Ok(44100), None).unwrap();
    p.play();
    push_10ms(&mut p, 10);
    assert_eq!(p.load_file(Err(AudioSourceError::Io), None), Err(AudioSourceError::Io));
    assert_eq!(p.phase(), Phase::FadeIn);
    assert_eq!(p.playback_pos(), Some(PlaybackPos::from_millis(100)));
}

#[test]
fn a_file_without_a_rate_is_refused() {
    let mut p = player(15);
    assert_eq!(p.load_file(Ok(0), None), Err(AudioSourceError::Vorbis));
    assert_eq!(p.phase(), Phase::Idle);
}

#[test]
fn a_file_is_loaded_at_the_place_asked_for() {
    let mut p = player(15);
    assert_eq!(p.load_file(Ok(44100), Some(PlaybackPos::from_millis(1500))), Ok(()));
    assert_eq!(p.phase(), Phase::Paused);
    assert_eq!(p.playback_pos(), Some(PlaybackPos::from_millis(1500)));
    // A new file takes the place of the old one.
    assert_eq!(p.load_file(Ok(48000), None), Ok(()));
    assert_eq!(p.playback_pos(), Some(PlaybackPos::from_millis(0)));
}

#[test]
fn a_place_beyond_all_frames_is_refused() {
    let mut p = player(15);
    assert_eq!(
        p.load_file(Ok(u64::MAX), Some(PlaybackPos::from_millis(u64::MAX))),
        Err(AudioSourceError::Vorbis)
    );
    assert_eq!(p.phase(), Phase::Idle);
}

#[test]
fn frames_are_counted_from_whole_microseconds() {
    assert_eq!(frame_at(44100, PlaybackPos::from_millis(1000)), Some(44100));
    assert_eq!(frame_at(44100, PlaybackPos::from_millis(0)), Some(0));
    assert_eq!(frame_at(44100, PlaybackPos::from_millis(1)), Some(44));
    assert_eq!(frame_at(48000, PlaybackPos::from_span(Span::new(0, 999_999))), Some(47));
    assert_eq!(frame_at(0, PlaybackPos::from_millis(1000)), Some(0));
    assert_eq!(frame_at(1, PlaybackPos::from_millis(u64::MAX)), Some(u64::MAX / 1000));
    assert_eq!(frame_at(1001, PlaybackPos::from_millis(u64::MAX)), None);
    assert_eq!(frame_at(u64::MAX, PlaybackPos::from_millis(u64::MAX)), None);
}

#[test]
fn rewind_goes_back_and_stops_at_the_start() {
    let mut p = player(15);
    assert_eq!(p.rewind_target(Span::from_secs(1)), None);
    assert_eq!(p.rewind(Span::from_secs(1), Ok(())), Ok(()));
    assert_eq!(p.phase(), Phase::Idle);

    p.load_file(Ok(44100), None).unwrap();
    p.play();
    push_10ms(&mut p, 300);
    assert_eq!(p.playback_pos(), Some(PlaybackPos::from_millis(3000)));
    assert_eq!(p.rewind_target(Span::from_secs(1)), Some(88200));
    assert_eq!(p.rewind(Span::from_secs(1), Ok(())), Ok(()));
    assert_eq!(p.playback_pos(), Some(PlaybackPos::from_millis(2000)));
    assert_eq!(p.phase(), Phase::Playing);
    assert_eq!(p.rewind_target(Span::from_secs(5)), Some(0));
    assert_eq!(p.rewind(Span::from_secs(5), Ok(())), Ok(()));
    assert_eq!(p.playback_pos(), Some(PlaybackPos::from_millis(0)));
}

#[test]
fn a_failed_seek_leaves_the_place() {
    let mut p = player(15);
    p.load_file(Ok(44100), None).unwrap();
    p.play();
    push_10ms(&mut p, 300);
    p.pause();
    assert_eq!(
        p.rewind(Span::from_secs(1), Err(AudioSourceError::Vorbis)),
        Err(AudioSourceError::Vorbis)
    );
    assert_eq!(p.playback_pos(), Some(PlaybackPos::from_millis(3000)));
    assert_eq!(p.phase(), Phase::FadeOut);
    // With no source there is nothing to seek, and nothing fails.
    let mut q = player(15);
    assert_eq!(q.rewind(Span::from_secs(1), Err(AudioSourceError::Io)), Ok(()));
}

#[test]
fn positions_are_told_in_milliseconds() {
    assert_eq!(PlaybackPos::from_millis(1234).as_millis(), 1234);
    assert_eq!(PlaybackPos::from_millis(u64::MAX).as_millis(), u64::MAX);
    assert_eq!(PlaybackPos::from_span(Span::new(1, 999_999_999)).as_millis(), 1999);
    assert_eq!(PlaybackPos::from_millis(5).span(), Span::from_millis(5));
    // Beyond 64 bits the count starts over.
    assert_eq!(PlaybackPos::from_span(Span::new(u64::MAX, 0)).as_millis(), u64::MAX - 999);
}

#[test]
fn only_whole_frames_that_can_be_counted_are_accepted() {
    let mut p = player(15);
    assert!(p.accepts(&Decoded::Samples(vec![0; 3])));
    p.load_file(Ok(44100), None).unwrap();
    assert!(p.accepts(&Decoded::Samples(vec![0; 3])));
    p.play();
    assert!(!p.accepts(&Decoded::Samples(vec![0; 3])));
    assert!(p.accepts(&Decoded::Samples(vec![0; 4])));
    assert!(p.accepts(&Decoded::Samples(vec![])));
    assert!(p.accepts(&Decoded::End));
    assert!(p.accepts(&Decoded::Skipped));
}

#[test]
fn the_output_is_paced_through_the_engine() {
    let mut p = player(15);
    let buf = vec![0i16; 88200];
    assert_eq!(p.output().play_buf(&buf, Span::zero()), Some(Span::from_millis(900)));
    p.output().recover(Span::from_secs(1));
    assert_eq!(p.output().play_buf(&buf, Span::from_secs(1)), Some(Span::from_millis(900)));
}
