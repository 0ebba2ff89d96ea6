use noctig::reader::{
    can_move, ChannelInfo, CivilDateTime, EpochReader, ReaderError, SampleChunk, SeekAction,
    SourceHeader,
};

fn start() -> CivilDateTime {
    CivilDateTime { year: 1970, month: 1, day: 2, hour: 0, minute: 0, second: 0 }
}

/// One 100 Hz data channel and one annotation channel, one-second records,
/// 60 epochs long.
fn header() -> SourceHeader {
    SourceHeader {
        channels: vec![
            ChannelInfo { label: "EEG".to_string(), samples_per_record: 100, is_annotation: false },
            ChannelInfo { label: "Annotations".to_string(), samples_per_record: 60, is_annotation: true },
        ],
        record_duration_ms: 1000,
        record_count: 1800,
        start: start(),
    }
}

fn data_chunk(n: usize) -> SampleChunk {
    SampleChunk { samples: (0..n as i32).collect(), is_padding: false }
}

#[test]
fn new_rejects_zero_record_duration() {
    let mut h = header();
    h.record_duration_ms = 0;
    assert!(matches!(EpochReader::new(h), Err(ReaderError::InvalidRecordDuration)));
}

#[test]
fn epoch_geometry() {
    let r = EpochReader::new(header()).unwrap();
    assert_eq!(r.get_epoch_sample_count(), 3000);
    assert_eq!(r.get_epoch_count(), 60);
    assert_eq!(r.signal_count(), 2);
    assert_eq!(r.tell(), 0);
}

#[test]
fn epoch_count_rounds_up_with_offset() {
    let mut r = EpochReader::new(header()).unwrap();
    r.set_offset(1);
    assert_eq!(r.get_epoch_count(), 61);
}

#[test]
fn alignment_keeps_tell() {
    let mut r = EpochReader::new(header()).unwrap();
    r.seek(45_000);
    r.set_offset(1_234);
    assert_eq!(r.tell(), 45_000);
    r.set_start_align_offset(90_000);
    assert_eq!(r.tell(), 45_000);
    r.set_offset(0);
    r.set_start_align_offset(30_000);
    assert_eq!(r.tell(), 45_000);
    assert_eq!(r.get_start_align_offset(), 30_000);
    assert_eq!(r.get_start_align_epoch_count(), 1);
}

#[test]
fn seek_then_tell_round_trips() {
    let mut r = EpochReader::new(header()).unwrap();
    r.set_start_align_offset(30_000);
    r.set_offset(500);
    for t in [0u64, 1, 29_999, 30_500, 1_234_567] {
        r.seek(t);
        assert_eq!(r.tell(), t as i128);
    }
}

#[test]
fn plan_seek_places_the_true_position() {
    let mut r = EpochReader::new(header()).unwrap();
    r.set_offset(500);
    assert_eq!(r.plan_seek(2_750), SeekAction::Record { index: 2, skip_millis: 250 });
    assert_eq!(r.plan_seek(100), SeekAction::Rewind);
}

#[test]
fn start_aligned_read_is_all_padding() {
    let mut r = EpochReader::new(header()).unwrap();
    r.set_start_align_offset(30_000);
    r.set_offset(0);
    assert_eq!(r.plan_seek(0), SeekAction::Rewind);
    r.seek(0);
    assert_eq!(r.fetch_millis(1), 0);
    assert_eq!(r.read_epochs(1, vec![Vec::new()]), Ok(()));
    let charts = r.get_chart_signals();
    assert_eq!(charts.len(), 1);
    assert_eq!(charts[0].label, "EEG");
    assert_eq!(charts[0].samples.len(), 3000);
    assert!(charts[0].samples.iter().all(|s| s.is_none()));
    assert_eq!(r.tell(), 30_000);
}

#[test]
fn negative_position_pads_at_the_front() {
    let mut r = EpochReader::new(header()).unwrap();
    r.set_start_align_offset(10_000);
    r.seek(0);
    assert_eq!(r.fetch_millis(2), 50_000);
    r.read_epochs(2, vec![vec![data_chunk(5000)]]).unwrap();
    let charts = r.get_chart_signals();
    assert_eq!(charts[0].samples.len(), 6000);
    assert!(charts[0].samples[..1000].iter().all(|s| s.is_none()));
    assert_eq!(charts[0].samples[1000], Some(0));
    assert_eq!(charts[0].samples[5999], Some(4999));
}

#[test]
fn short_tail_pads_at_the_back() {
    let mut r = EpochReader::new(header()).unwrap();
    r.seek(1_770_000);
    assert_eq!(r.fetch_millis(3), 90_000);
    r.read_epochs(3, vec![vec![data_chunk(1000), data_chunk(2000)]]).unwrap();
    let charts = r.get_chart_signals();
    assert_eq!(charts[0].samples.len(), 9000);
    assert_eq!(charts[0].samples[2999], Some(1999));
    assert!(charts[0].samples[3000..].iter().all(|s| s.is_none()));
    assert_eq!(r.get_window_start_epoch(), 59);
    assert_eq!(r.get_window_end_epoch(), 62);
    assert_eq!(r.current_timeframe(), (1770, 1800));
}

#[test]
fn read_errors() {
    let mut r = EpochReader::new(header()).unwrap();
    assert_eq!(r.read_epochs(1, vec![]), Err(ReaderError::LayoutMismatch));
    assert_eq!(r.read_epochs(1, vec![vec![data_chunk(3001)]]), Err(ReaderError::ExcessSamples));
    assert_eq!(r.tell(), 0);
    let mut wide = header();
    wide.channels[0].samples_per_record = u64::MAX;
    let mut w = EpochReader::new(wide).unwrap();
    assert_eq!(w.read_epochs(1, vec![Vec::new()]), Err(ReaderError::WindowTooLarge));
}

#[test]
fn padding_completes_every_channel() {
    let mut h = header();
    h.channels.push(ChannelInfo { label: "EMG".to_string(), samples_per_record: 200, is_annotation: false });
    let mut r = EpochReader::new(h).unwrap();
    r.set_start_align_offset(45_000);
    r.seek(30_000);
    r.read_epochs(2, vec![vec![data_chunk(4500)], vec![data_chunk(9000)]]).unwrap();
    let charts = r.get_chart_signals();
    assert_eq!(charts.len(), 2);
    assert_eq!(charts[0].samples.len(), 2 * 3000);
    assert_eq!(charts[1].samples.len(), 2 * 6000);
    assert_eq!(charts[1].index, 1);
    assert_eq!(charts[1].label, "EMG");
    assert!(charts[1].samples[..3000].iter().all(|s| s.is_none()));
}

#[test]
fn start_timestamp_from_header() {
    let r = EpochReader::new(header()).unwrap();
    assert_eq!(r.start_timestamp(), Some(86_400));
    let mut bad = header();
    bad.start.month = 13;
    assert_eq!(EpochReader::new(bad).unwrap().start_timestamp(), None);
}

#[test]
fn segmented_moves() {
    let mut r = EpochReader::new(header()).unwrap();
    r.seek(90_000);
    assert_eq!(r.segmented_seek_target(3, 1), 30_000);
    assert_eq!(r.segmented_seek_target(3, -1), 0);
    assert_eq!(r.segmented_seek_target(5, 0), 0);
    assert!(!can_move(59, 60, 1));
    assert!(can_move(59, 60, -1));
    assert!(can_move(10, 60, 1));
}
