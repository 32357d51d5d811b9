use feed::state::{Player, QueuedTrack};
use feed::stream::{StreamSession, StreamStep};

fn pcm_buffer(frames: usize, lo: u8, hi: u8) -> Vec<u8> {
    let mut v = Vec::with_capacity(frames * 4);
    for _ in 0..frames {
        // One stereo frame: the same sample on both channels.
        v.push(lo);
        v.push(hi);
        v.push(lo);
        v.push(hi);
    }
    v
}

#[test]
fn chunk_schedule_has_no_drift() {
    // 100 full chunks; after k chunks the offset is exactly k * 1024
    // frames, recomputed from the position rather than accumulated.
    let data = pcm_buffer(1024 * 100, 0, 0);
    let mut s = StreamSession::new(data);
    assert_eq!(s.total_frames(), 1024 * 100);
    for k in 0..100u64 {
        assert_eq!(s.frames_sent(), k * 1024);
        assert_eq!(s.ideal_offset_micros(), k * 1024 * 64 / 3);
        match s.advance(true, 1000) {
            StreamStep::Chunk(c) => assert_eq!(c.len(), 4096),
            _ => panic!("expected a chunk"),
        }
    }
    assert_eq!(s.frames_sent(), s.total_frames());
    assert!(matches!(s.advance(true, 1000), StreamStep::Finished));
}

#[test]
fn final_short_chunk_completes_the_buffer() {
    let data = pcm_buffer(1024 + 25, 0, 0);  // 4096 + 100 bytes
    let mut s = StreamSession::new(data);
    assert_eq!(s.total_frames(), 1049);
    match s.advance(true, 1000) {
        StreamStep::Chunk(c) => assert_eq!(c.len(), 4096),
        _ => panic!("expected a chunk"),
    }
    match s.advance(true, 1000) {
        StreamStep::Chunk(c) => assert_eq!(c.len(), 100),
        _ => panic!("expected the short final chunk"),
    }
    assert_eq!(s.frames_sent(), 1049);
    assert!(matches!(s.advance(true, 1000), StreamStep::Finished));
}

#[test]
fn stop_at_chunk_ten_hands_out_no_further_chunk() {
    let data = pcm_buffer(1024 * 100, 0, 0);
    let mut s = StreamSession::new(data);
    for _ in 0..10 {
        assert!(matches!(s.advance(true, 1000), StreamStep::Chunk(_)));
    }
    let sent_at_stop = s.frames_sent();
    assert_eq!(sent_at_stop, 10 * 1024);
    // The stop flag is observed at the chunk boundary: no write beyond
    // chunk ten, however often the loop polls.
    assert!(matches!(s.advance(false, 1000), StreamStep::Cancelled));
    assert!(matches!(s.advance(false, 1000), StreamStep::Cancelled));
    assert_eq!(s.frames_sent(), sent_at_stop);
}

#[test]
fn stopped_run_returns_to_idle() {
    let mut p = Player::new();
    p.set_transport_connected(true);
    p.enqueue(QueuedTrack { path: String::from("/a"), display_name: String::from("A") });
    let _ = p.try_begin_playback();
    p.set_total_from_bytes(4096 * 100);
    let data = pcm_buffer(1024 * 100, 0, 0);
    let mut s = StreamSession::new(data);
    for _ in 0..10 {
        assert!(matches!(s.advance(p.is_playing, p.gain_milli), StreamStep::Chunk(_)));
        p.update_progress(s.frames_sent());
    }
    p.request_stop();
    assert!(matches!(s.advance(p.is_playing, p.gain_milli), StreamStep::Cancelled));
    assert!(!p.is_playing);
    assert!(p.current_track.is_none());
    assert_eq!(p.progress_permille(), 0);
}

#[test]
fn progress_is_monotone_and_reaches_exactly_full() {
    let mut p = Player::new();
    p.set_transport_connected(true);
    p.enqueue(QueuedTrack { path: String::from("/a"), display_name: String::from("A") });
    let _ = p.try_begin_playback();
    let data = pcm_buffer(1024 * 7 + 25, 0, 0);
    p.set_total_from_bytes(data.len());
    let mut s = StreamSession::new(data);
    let mut last = 0u32;
    loop {
        match s.advance(p.is_playing, p.gain_milli) {
            StreamStep::Chunk(_) => {
                p.update_progress(s.frames_sent());
                let now = p.progress_permille();
                assert!(now >= last);
                last = now;
            }
            StreamStep::Finished => break,
            StreamStep::Cancelled => panic!("nothing requested a stop"),
        }
    }
    assert_eq!(p.progress_permille(), 1000);
}

#[test]
fn sleep_is_the_exact_deficit_and_never_catches_up() {
    let data = pcm_buffer(1024 * 2, 0, 0);
    let mut s = StreamSession::new(data);
    // Before any chunk the ideal offset is zero: no wait.
    assert_eq!(s.sleep_micros(0), None);
    assert!(matches!(s.advance(true, 1000), StreamStep::Chunk(_)));
    // 1024 frames at 64/3 us per frame: due at 21845 us.
    assert_eq!(s.ideal_offset_micros(), 21845);
    assert_eq!(s.sleep_micros(20000), Some(1845));
    assert_eq!(s.sleep_micros(21844), Some(1));
    // Wall clock at or past the ideal offset: proceed at once, never
    // speed up to catch up.
    assert_eq!(s.sleep_micros(21845), None);
    assert_eq!(s.sleep_micros(500000), None);
}

#[test]
fn chunks_are_scaled_with_the_gain_current_at_each_chunk() {
    // Two chunks of sample 1000; gain changes between them.
    let data = pcm_buffer(1024 * 2, 0xe8, 0x03);
    let mut s = StreamSession::new(data);
    match s.advance(true, 500) {
        StreamStep::Chunk(c) => {
            assert_eq!(feed::volume::decode_sample(c[0], c[1]), 500);
        }
        _ => panic!("expected a chunk"),
    }
    match s.advance(true, 2000) {
        StreamStep::Chunk(c) => {
            assert_eq!(feed::volume::decode_sample(c[0], c[1]), 2000);
        }
        _ => panic!("expected a chunk"),
    }
}

#[test]
fn durations_split_exactly() {
    assert_eq!(feed::duration::split_duration(0), (0, 0, 0));
    assert_eq!(feed::duration::split_duration(59), (0, 0, 59));
    assert_eq!(feed::duration::split_duration(61), (0, 1, 1));
    assert_eq!(feed::duration::split_duration(3661), (1, 1, 1));
    assert_eq!(feed::duration::split_duration(86399), (23, 59, 59));
    assert_eq!(feed::duration::seconds_of_frames(46875), 1);
    assert_eq!(feed::duration::seconds_of_frames(46874), 0);
    assert_eq!(feed::duration::seconds_of_frames(46875 * 90 + 1), 90);
}
