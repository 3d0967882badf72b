use sample_source::source::buffer::SamplesBuffer;
use sample_source::{SeekError, Source, TimeSpan};

#[test]
fn produces_items_in_order_then_keeps_signalling_the_end() {
    let mut source = SamplesBuffer::new(vec![3, 1, 4, 1, 5], 1, 8000);
    assert_eq!(source.next(), Some(3));
    assert_eq!(source.next(), Some(1));
    assert_eq!(source.next(), Some(4));
    assert_eq!(source.next(), Some(1));
    assert_eq!(source.next(), Some(5));
    assert_eq!(source.next(), None);
    assert_eq!(source.next(), None);
    assert_eq!(source.next(), None);
}

#[test]
fn reports_its_stream_format() {
    let source = SamplesBuffer::new(vec![0; 6], 2, 44100);
    assert_eq!(source.channels(), 2);
    assert_eq!(source.sample_rate(), 44100);
}

#[test]
fn current_frame_len_counts_the_unconsumed_items() {
    let mut source = SamplesBuffer::new(vec![1, 2, 3], 1, 8000);
    assert_eq!(source.current_frame_len(), Some(3));
    source.next();
    assert_eq!(source.current_frame_len(), Some(2));
    source.next();
    source.next();
    assert_eq!(source.current_frame_len(), Some(0));
    source.next();
    assert_eq!(source.current_frame_len(), Some(0));
}

#[test]
fn total_duration_is_exact() {
    // Four samples over two channels at one frame per second: two seconds.
    let source = SamplesBuffer::new(vec![1, 2, 3, 4], 2, 1);
    assert_eq!(
        source.total_duration(),
        Some(TimeSpan { nanos: 2_000_000_000 })
    );

    // 44100 interleaved stereo samples at 44.1 kHz: half a second.
    let source = SamplesBuffer::new(vec![0; 44100], 2, 44100);
    assert_eq!(
        source.total_duration(),
        Some(TimeSpan { nanos: 500_000_000 })
    );
}

#[test]
fn seek_lands_on_a_frame_boundary() {
    // Two channels at two frames per second: one second equals frame two,
    // which starts at item index four.
    let mut source = SamplesBuffer::new(vec![10, 20, 30, 40, 50, 60, 70, 80], 2, 2);
    assert_eq!(source.try_seek(TimeSpan { nanos: 1_000_000_000 }), Ok(()));
    assert_eq!(source.next(), Some(50));

    // Seeking backwards works too.
    assert_eq!(source.try_seek(TimeSpan { nanos: 0 }), Ok(()));
    assert_eq!(source.next(), Some(10));
}

#[test]
fn seek_to_the_exact_end_is_allowed() {
    let mut source = SamplesBuffer::new(vec![1, 2, 3, 4], 2, 2);
    assert_eq!(source.try_seek(TimeSpan { nanos: 1_000_000_000 }), Ok(()));
    assert_eq!(source.next(), None);
}

#[test]
fn seek_past_the_end_fails_and_leaves_the_source_unchanged() {
    let mut source = SamplesBuffer::new(vec![1, 2, 3, 4], 2, 2);
    assert_eq!(source.next(), Some(1));
    assert_eq!(
        source.try_seek(TimeSpan { nanos: 10_000_000_000 }),
        Err(SeekError::OutOfRange)
    );
    assert_eq!(source.next(), Some(2));
}
