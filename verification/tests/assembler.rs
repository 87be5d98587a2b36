use rusic::iter_to_buffer;
use rusic::Session;
use rusic::BUFFER_SIZE;

fn fresh_buffer(fill: (i16, i16)) -> Vec<(i16, i16)> {
    vec![fill; BUFFER_SIZE]
}

#[test]
fn even_sample_count_packs_exact_pairs() {
    let mut session = Session::from_parts(44100, vec![1, 2, 3, 4, 5, 6]).unwrap();
    let mut buffer = fresh_buffer((9, 9));
    let n = iter_to_buffer(&mut session, &mut buffer);
    assert_eq!(n, 3);
    assert_eq!(buffer[0], (1, 2));
    assert_eq!(buffer[1], (3, 4));
    assert_eq!(buffer[2], (5, 6));
    assert_eq!(buffer[3], (9, 9));
    assert_eq!(buffer[BUFFER_SIZE - 1], (9, 9));
}

#[test]
fn odd_sample_count_keeps_previous_right_channel() {
    let mut session = Session::from_parts(44100, vec![1, 2, 3, 4, 5, 6, 7]).unwrap();
    let mut buffer = fresh_buffer((9, 9));
    let n = iter_to_buffer(&mut session, &mut buffer);
    assert_eq!(n, 4);
    assert_eq!(buffer[0], (1, 2));
    assert_eq!(buffer[1], (3, 4));
    assert_eq!(buffer[2], (5, 6));
    // the unmatched trailing sample fills the left channel; the right one
    // keeps what the buffer held before
    assert_eq!(buffer[3], (7, 9));
    assert_eq!(buffer[4], (9, 9));
}

#[test]
fn exhausted_session_yields_zero_frames() {
    let mut session = Session::from_parts(44100, vec![1, 2]).unwrap();
    let mut buffer = fresh_buffer((0, 0));
    assert_eq!(iter_to_buffer(&mut session, &mut buffer), 1);
    assert_eq!(iter_to_buffer(&mut session, &mut buffer), 0);
    assert_eq!(iter_to_buffer(&mut session, &mut buffer), 0);
}

#[test]
fn long_track_fills_whole_buffers() {
    let samples: Vec<i16> = (0..2 * BUFFER_SIZE as i32 + 10).map(|i| i as i16).collect();
    let mut session = Session::from_parts(44100, samples).unwrap();
    let mut buffer = fresh_buffer((0, 0));
    let n = iter_to_buffer(&mut session, &mut buffer);
    assert_eq!(n, BUFFER_SIZE);
    assert_eq!(buffer[0], (0, 1));
    assert_eq!(buffer[BUFFER_SIZE - 1], (2 * BUFFER_SIZE as i16 - 2, 2 * BUFFER_SIZE as i16 - 1));
    let n = iter_to_buffer(&mut session, &mut buffer);
    assert_eq!(n, 5);
    assert_eq!(buffer[0], (2 * BUFFER_SIZE as i16, 2 * BUFFER_SIZE as i16 + 1));
}
