//! A cursor over one record-structured signal source, addressed in
//! milliseconds on a grid of fixed 30-second epochs.
//!
//! The reader decides; the decoder fetches. `plan_seek` and `fetch_millis`
//! say what the decoder has to do, and `seek` and `read_epochs` take the
//! outcome and update the cursor.
use vstd::prelude::*;

verus! {

/// Length of one epoch in seconds.
pub const EPOCH_DURATION: u64 = 30;

/// Length of one epoch in milliseconds.
pub const EPOCH_MILLIS: u64 = 30000;

/// What the reader needs to know of one channel of the source.
pub struct ChannelInfo {
    pub label: String,
    pub samples_per_record: u64,
    pub is_annotation: bool,
}

/// A calendar date and time of day, as the source's header states it.
#[derive(Debug, Clone, Copy, PartialEq, Eq, Structural)]
pub struct CivilDateTime {
    pub year: i32,
    pub month: u32,
    pub day: u32,
    pub hour: u32,
    pub minute: u32,
    pub second: u32,
}

/// What the reader needs to know of the source as a whole.
pub struct SourceHeader {
    pub channels: Vec<ChannelInfo>,
    pub record_duration_ms: u64,
    pub record_count: u64,
    /// When the recording started (UTC).
    pub start: CivilDateTime,
}

/// A run of raw samples of one channel, either read from the source or
/// synthesised to stand for data that does not exist there.
pub struct SampleChunk {
    pub samples: Vec<i32>,
    pub is_padding: bool,
}

#[derive(Debug, PartialEq, Eq, Structural)]
pub enum ReaderError {
    /// The header gives records no duration.
    InvalidRecordDuration,
    /// The decoder returned another number of channels than the header lists.
    LayoutMismatch,
    /// The decoder returned more samples for a channel than were asked for.
    ExcessSamples,
    /// A channel's window holds more samples than memory can address.
    WindowTooLarge,
}

/// What the decoder has to do to place itself for a `seek`.
#[derive(Debug, PartialEq, Eq, Structural)]
pub enum SeekAction {
    /// Go back to the first record: the target lies before the data.
    Rewind,
    /// Go to record `index`, then skip `skip_millis` into it.
    Record { index: u64, skip_millis: u64 },
}

/// The samples of one data channel of the current window, ready for plotting:
/// `None` marks a padding sample.
pub struct ChartSignal {
    pub index: usize,
    pub label: String,
    pub samples: Vec<Option<i32>>,
}

pub struct EpochReader {
    header: SourceHeader,
    start_align_offset: u64,
    offset: u64,
    position: i128,
    last_epoch_count: usize,
    record: Vec<Vec<SampleChunk>>,
}

/// The channels that carry samples (annotation channels left out), in order.
pub open spec fn data_channels(channels: Seq<ChannelInfo>) -> Seq<ChannelInfo>
    decreases channels.len(),
{
    if channels.len() == 0 {
        Seq::empty()
    } else if channels.last().is_annotation {
        data_channels(channels.drop_last())
    } else {
        data_channels(channels.drop_last()).push(channels.last())
    }
}

/// Total number of samples in a run of chunks.
pub open spec fn chunks_len(chunks: Seq<SampleChunk>) -> int
    decreases chunks.len(),
{
    if chunks.len() == 0 {
        0
    } else {
        chunks_len(chunks.drop_last()) + chunks.last().samples@.len()
    }
}

impl EpochReader {
    /// Stream-relative time of the cursor in milliseconds.
    pub closed spec fn tell_spec(&self) -> int {
        self.position + self.offset + self.start_align_offset
    }

    pub closed spec fn position_spec(&self) -> int {
        self.position as int
    }

    pub closed spec fn offset_spec(&self) -> u64 {
        self.offset
    }

    pub closed spec fn start_align_offset_spec(&self) -> u64 {
        self.start_align_offset
    }

    pub closed spec fn last_epoch_count_spec(&self) -> usize {
        self.last_epoch_count
    }

    pub closed spec fn header_spec(&self) -> &SourceHeader {
        &self.header
    }

    pub closed spec fn record_spec(&self) -> Seq<Vec<SampleChunk>> {
        self.record@
    }

    /// The cursor's stream-relative time is its true position shifted back by
    /// the offset and the start alignment.
    pub proof fn lemma_tell_decomposes(&self)
        ensures
            self.tell_spec() == self.position_spec() + self.offset_spec()
                + self.start_align_offset_spec(),
    {
    }

    pub open spec fn wf(&self) -> bool {
        &&& 0 <= self.tell_spec() <= u64::MAX
        &&& self.header_spec().record_duration_ms > 0
        &&& self.record_spec().len() == data_channels(self.header_spec().channels@).len()
    }
}

/// Samples one channel holds per epoch.
pub open spec fn epoch_samples_of(samples_per_record: u64, record_duration_ms: u64) -> int {
    samples_per_record * EPOCH_MILLIS / record_duration_ms as int
}

/// Whole samples one channel holds per second.
pub open spec fn samples_per_second_of(samples_per_record: u64, record_duration_ms: u64) -> int {
    samples_per_record * 1000 / record_duration_ms as int
}

/// Samples a channel delivers over `millis` milliseconds.
pub open spec fn samples_in_millis(samples_per_record: u64, record_duration_ms: u64, millis: int) -> int {
    samples_per_record * millis / record_duration_ms as int
}

/// Ceiling of `a / b`.
pub open spec fn ceil_div(a: int, b: int) -> int {
    (a + b - 1) / b
}

pub open spec fn clamp_to_u64(v: int) -> u64 {
    if v > u64::MAX {
        u64::MAX
    } else {
        v as u64
    }
}

/// Epochs covered by the samples of the first channel, shifted by `offset`.
pub open spec fn epoch_count_of(header: &SourceHeader, offset: u64) -> u64 {
    if header.channels@.len() == 0 {
        0
    } else {
        let spr = header.channels@[0].samples_per_record;
        let spe = epoch_samples_of(spr, header.record_duration_ms);
        if spe == 0 {
            0
        } else {
            clamp_to_u64(ceil_div(spr * header.record_count + offset, spe))
        }
    }
}

/// The decoder action that places a source at true stream position `position`.
pub open spec fn seek_action_of(position: int, record_duration_ms: u64) -> SeekAction {
    if position < 0 {
        SeekAction::Rewind
    } else {
        SeekAction::Record {
            index: (position / record_duration_ms as int) as u64,
            skip_millis: (position % record_duration_ms as int) as u64,
        }
    }
}

fn clamp_u64(v: u128) -> (r: u64)
    ensures
        r == clamp_to_u64(v as int),
{
    if v > u64::MAX as u128 {
        u64::MAX
    } else {
        v as u64
    }
}

impl EpochReader {
    /// A reader positioned at the start of the source, with no alignment.
    pub fn new(header: SourceHeader) -> (r: Result<EpochReader, ReaderError>)
        ensures
            header.record_duration_ms == 0 <==> r is Err,
            r is Err ==> r->Err_0 == ReaderError::InvalidRecordDuration,
            r matches Ok(reader) ==> {
                &&& reader.wf()
                &&& reader.header_spec() == header
                &&& reader.tell_spec() == 0
                &&& reader.position_spec() == 0
                &&& reader.offset_spec() == 0
                &&& reader.start_align_offset_spec() == 0
                &&& reader.last_epoch_count_spec() == 0
                &&& reader.record_spec().len() == data_channels(header.channels@).len()
                &&& forall|i: int|
                    0 <= i < reader.record_spec().len() ==> #[trigger] reader.record_spec()[i]@.len()
                        == 0
            },
    {
        if header.record_duration_ms == 0 {
            return Err(ReaderError::InvalidRecordDuration);
        }
        let mut record: Vec<Vec<SampleChunk>> = Vec::new();
        let mut i: usize = 0;
        while i < header.channels.len()
            invariant
                i <= header.channels@.len(),
                record@.len() == data_channels(header.channels@.subrange(0, i as int)).len(),
                forall|j: int| 0 <= j < record@.len() ==> #[trigger] record@[j]@.len() == 0,
            decreases header.channels@.len() - i,
        {
            assert(header.channels@.subrange(0, i + 1).drop_last() =~= header.channels@.subrange(
                0,
                i as int,
            ));
            if !header.channels[i].is_annotation {
                record.push(Vec::new());
            }
            i += 1;
        }
        assert(header.channels@.subrange(0, i as int) =~= header.channels@);
        Ok(EpochReader {
            header,
            start_align_offset: 0,
            offset: 0,
            position: 0,
            last_epoch_count: 0,
            record,
        })
    }

    /// Moves logical epoch 0 to `offset` milliseconds into the stream; the
    /// cursor keeps its stream-relative time.
    pub fn set_start_align_offset(&mut self, offset: u64)
        requires
            old(self).wf(),
        ensures
            final(self).wf(),
            final(self).tell_spec() == old(self).tell_spec(),
            final(self).start_align_offset_spec() == offset,
            final(self).offset_spec() == old(self).offset_spec(),
            final(self).position_spec() == old(self).position_spec()
                + old(self).start_align_offset_spec() - offset,
            final(self).last_epoch_count_spec() == old(self).last_epoch_count_spec(),
            final(self).header_spec() == old(self).header_spec(),
            final(self).record_spec() == old(self).record_spec(),
    {
        self.position = self.position + self.start_align_offset as i128;
        self.start_align_offset = offset;
        self.position = self.position - self.start_align_offset as i128;
    }

    pub fn get_start_align_offset(&self) -> (r: u64)
        ensures
            r == self.start_align_offset_spec(),
    {
        self.start_align_offset
    }

    /// Sets the per-source lead or lag in milliseconds; the cursor keeps its
    /// stream-relative time.
    pub fn set_offset(&mut self, offset: u64)
        requires
            old(self).wf(),
        ensures
            final(self).wf(),
            final(self).tell_spec() == old(self).tell_spec(),
            final(self).offset_spec() == offset,
            final(self).start_align_offset_spec() == old(self).start_align_offset_spec(),
            final(self).position_spec() == old(self).position_spec() + old(self).offset_spec()
                - offset,
            final(self).last_epoch_count_spec() == old(self).last_epoch_count_spec(),
            final(self).header_spec() == old(self).header_spec(),
            final(self).record_spec() == old(self).record_spec(),
    {
        self.position = self.position + self.offset as i128;
        self.offset = offset;
        self.position = self.position - self.offset as i128;
    }

    /// Stream-relative time of the cursor in milliseconds.
    pub fn tell(&self) -> (r: i128)
        requires
            self.wf(),
        ensures
            r == self.tell_spec(),
            r >= 0,
    {
        self.position + self.offset as i128 + self.start_align_offset as i128
    }

    /// Number of whole epochs that the start alignment shifts epoch 0 by.
    pub fn get_start_align_epoch_count(&self) -> (r: u64)
        ensures
            r == self.start_align_offset_spec() / EPOCH_MILLIS,
    {
        self.start_align_offset / EPOCH_MILLIS
    }

    /// First epoch of the window that the last `read_epochs` filled.
    pub fn get_window_start_epoch(&self) -> (r: u64)
        requires
            self.wf(),
            self.tell_spec() / EPOCH_MILLIS as int >= self.last_epoch_count_spec(),
        ensures
            r == self.tell_spec() / EPOCH_MILLIS as int - self.last_epoch_count_spec(),
    {
        let epoch = (self.tell() / EPOCH_MILLIS as i128) as u64;
        epoch - self.last_epoch_count as u64
    }

    /// Epoch, counted from the aligned epoch 0, at which the cursor stands.
    pub fn get_window_end_epoch(&self) -> (r: u64)
        requires
            self.wf(),
            self.tell_spec() / EPOCH_MILLIS as int >= self.start_align_offset_spec()
                / EPOCH_MILLIS,
        ensures
            r == self.tell_spec() / EPOCH_MILLIS as int - self.start_align_offset_spec()
                / EPOCH_MILLIS,
    {
        let epoch = (self.tell() / EPOCH_MILLIS as i128) as u64;
        epoch - self.get_start_align_epoch_count()
    }

    /// Samples per epoch of the first channel; 0 for a source without channels.
    pub fn get_epoch_sample_count(&self) -> (r: u64)
        requires
            self.wf(),
        ensures
            self.header_spec().channels@.len() == 0 ==> r == 0,
            self.header_spec().channels@.len() > 0 ==> r == clamp_to_u64(
                epoch_samples_of(
                    self.header_spec().channels@[0].samples_per_record,
                    self.header_spec().record_duration_ms,
                ),
            ),
    {
        if self.header.channels.len() == 0 {
            return 0;
        }
        let spr = self.header.channels[0].samples_per_record as u128;
        assert(spr * EPOCH_MILLIS <= u128::MAX) by (nonlinear_arith)
            requires
                spr <= u64::MAX,
        ;
        let v = spr * EPOCH_MILLIS as u128 / self.header.record_duration_ms as u128;
        clamp_u64(v)
    }

    /// Total number of epochs in the source: the first channel's sample count
    /// plus the offset, divided by the samples per epoch and rounded up.
    pub fn get_epoch_count(&self) -> (r: u64)
        requires
            self.wf(),
        ensures
            r == epoch_count_of(self.header_spec(), self.offset_spec()),
    {
        if self.header.channels.len() == 0 {
            return 0;
        }
        let spr = self.header.channels[0].samples_per_record as u128;
        assert(spr * EPOCH_MILLIS <= u128::MAX) by (nonlinear_arith)
            requires
                spr <= u64::MAX,
        ;
        let spe = spr * EPOCH_MILLIS as u128 / self.header.record_duration_ms as u128;
        if spe == 0 {
            return 0;
        }
        let rc = self.header.record_count as u128;
        assert(spr * rc <= 0xffff_ffff_ffff_fffe_0000_0000_0000_0001) by (nonlinear_arith)
            requires
                spr <= u64::MAX,
                rc <= u64::MAX,
        ;
        let total = spr * rc + self.offset as u128;
        let count = if total % spe == 0 {
            total / spe
        } else {
            total / spe + 1
        };
        assert(count == ceil_div(total as int, spe as int)) by (nonlinear_arith)
            requires
                spe > 0,
                total % spe == 0 ==> count == total / spe,
                total % spe != 0 ==> count == total / spe + 1,
        ;
        clamp_u64(count)
    }

    /// Number of channels in the source, annotation channels included.
    pub fn signal_count(&self) -> (r: usize)
        ensures
            r == self.header_spec().channels@.len(),
    {
        self.header.channels.len()
    }

    /// The channels of the source, annotation channels included.
    pub fn get_signals(&self) -> (r: &Vec<ChannelInfo>)
        ensures
            r@ == self.header_spec().channels@,
    {
        &self.header.channels
    }

    pub fn header(&self) -> (r: &SourceHeader)
        ensures
            r == self.header_spec(),
    {
        &self.header
    }

    /// What the decoder has to do so that `seek(millis)` finds it in place.
    pub fn plan_seek(&self, millis: u64) -> (r: SeekAction)
        requires
            self.wf(),
        ensures
            r == seek_action_of(
                millis - self.offset_spec() - self.start_align_offset_spec(),
                self.header_spec().record_duration_ms,
            ),
    {
        let position = millis as i128 - self.offset as i128 - self.start_align_offset as i128;
        if position < 0 {
            SeekAction::Rewind
        } else {
            let rms = self.header.record_duration_ms as i128;
            SeekAction::Record { index: (position / rms) as u64, skip_millis: (position % rms) as u64 }
        }
    }

    /// Places the cursor at `millis` on the aligned time line, once the
    /// decoder has carried out `plan_seek(millis)`. The true stream position
    /// may come out negative: later reads pad that span.
    pub fn seek(&mut self, millis: u64)
        requires
            old(self).wf(),
        ensures
            final(self).wf(),
            final(self).tell_spec() == millis,
            final(self).position_spec() == millis - old(self).offset_spec()
                - old(self).start_align_offset_spec(),
            final(self).offset_spec() == old(self).offset_spec(),
            final(self).start_align_offset_spec() == old(self).start_align_offset_spec(),
            final(self).last_epoch_count_spec() == old(self).last_epoch_count_spec(),
            final(self).header_spec() == old(self).header_spec(),
            final(self).record_spec() == old(self).record_spec(),
    {
        self.position = millis as i128 - self.offset as i128 - self.start_align_offset as i128;
    }
}

/// Milliseconds of data the decoder has to deliver for a read of `count`
/// epochs from true position `position`: the part before the start of the
/// data is left out.
pub open spec fn fetch_millis_of(position: int, count: int) -> int {
    let read = count * EPOCH_MILLIS;
    if position < 0 {
        if read > -position {
            read + position
        } else {
            0
        }
    } else {
        read
    }
}

/// `chunk` is a padding chunk of `n` samples.
pub open spec fn is_padding_of(chunk: SampleChunk, n: int) -> bool {
    &&& chunk.is_padding
    &&& chunk.samples@ == Seq::new(n as nat, |i: int| 0i32)
}

/// `out` is `fetched` with `pad` padding samples added, at the front when
/// `at_front` holds and at the back otherwise; no chunk is added for `pad == 0`.
pub open spec fn padded_channel(
    out: Seq<SampleChunk>,
    fetched: Seq<SampleChunk>,
    pad: int,
    at_front: bool,
) -> bool {
    if pad == 0 {
        out == fetched
    } else if at_front {
        &&& out.len() == fetched.len() + 1
        &&& is_padding_of(out[0], pad)
        &&& out.drop_first() == fetched
    } else {
        &&& out.len() == fetched.len() + 1
        &&& is_padding_of(out.last(), pad)
        &&& out.drop_last() == fetched
    }
}

/// Samples that data channel `c` holds after a read of `count` epochs.
pub open spec fn window_samples(header: &SourceHeader, c: int, count: int) -> int {
    samples_in_millis(
        data_channels(header.channels@)[c].samples_per_record,
        header.record_duration_ms,
        count * EPOCH_MILLIS,
    )
}

proof fn lemma_chunks_len_nonneg(chunks: Seq<SampleChunk>)
    ensures
        chunks_len(chunks) >= 0,
    decreases chunks.len(),
{
    if chunks.len() > 0 {
        lemma_chunks_len_nonneg(chunks.drop_last());
    }
}

proof fn lemma_chunks_len_prepend(p: SampleChunk, chunks: Seq<SampleChunk>)
    ensures
        chunks_len(seq![p] + chunks) == p.samples@.len() + chunks_len(chunks),
    decreases chunks.len(),
{
    let whole = seq![p] + chunks;
    if chunks.len() == 0 {
        assert(whole.drop_last() =~= Seq::<SampleChunk>::empty());
        assert(whole.last() == p);
        assert(chunks_len(whole) == chunks_len(whole.drop_last()) + whole.last().samples@.len());
    } else {
        assert(whole.drop_last() =~= seq![p] + chunks.drop_last());
        assert(whole.last() == chunks.last());
        lemma_chunks_len_prepend(p, chunks.drop_last());
        assert(chunks_len(whole) == chunks_len(whole.drop_last()) + whole.last().samples@.len());
        assert(chunks_len(chunks) == chunks_len(chunks.drop_last()) + chunks.last().samples@.len());
    }
}

proof fn lemma_data_channels_step(channels: Seq<ChannelInfo>, i: int)
    requires
        0 <= i < channels.len(),
    ensures
        data_channels(channels.subrange(0, i + 1)) == if channels[i].is_annotation {
            data_channels(channels.subrange(0, i))
        } else {
            data_channels(channels.subrange(0, i)).push(channels[i])
        },
{
    assert(channels.subrange(0, i + 1).drop_last() =~= channels.subrange(0, i));
}

/// Total samples in `chunks`.
fn total_samples(chunks: &Vec<SampleChunk>) -> (r: u128)
    ensures
        r == chunks_len(chunks@),
{
    let mut sum: u128 = 0;
    let mut i: usize = 0;
    while i < chunks.len()
        invariant
            i <= chunks@.len(),
            sum == chunks_len(chunks@.subrange(0, i as int)),
            sum <= i * 0xffff_ffff_ffff_ffff,
        decreases chunks@.len() - i,
    {
        assert(chunks@.subrange(0, i + 1).drop_last() =~= chunks@.subrange(0, i as int));
        let len = chunks[i].samples.len();
        assert(sum + chunks[i as int].samples@.len() <= (i + 1) * 0xffff_ffff_ffff_ffff)
            by (nonlinear_arith)
            requires
                sum <= i * 0xffff_ffff_ffff_ffff,
                chunks[i as int].samples@.len() <= 0xffff_ffff_ffff_ffff,
        ;
        assert(i < 0xffff_ffff_ffff_ffff);
        assert((i + 1) * 0xffff_ffff_ffff_ffff <= u128::MAX) by (nonlinear_arith)
            requires
                i < 0xffff_ffff_ffff_ffff,
        ;
        sum = sum + len as u128;
        i += 1;
    }
    assert(chunks@.subrange(0, i as int) =~= chunks@);
    sum
}

impl EpochReader {
    /// Milliseconds of data that the decoder has to fetch for
    /// `read_epochs(count)`, from where `seek` placed it.
    pub fn fetch_millis(&self, count: usize) -> (r: u128)
        requires
            self.wf(),
        ensures
            r == fetch_millis_of(self.position_spec(), count as int),
    {
        let read_millis = count as u128 * EPOCH_MILLIS as u128;
        if self.position < 0 {
            let missing = (-self.position) as u128;
            if read_millis > missing {
                read_millis - missing
            } else {
                0
            }
        } else {
            read_millis
        }
    }

    /// Takes what the decoder delivered for `fetch_millis(count)`, one run of
    /// chunks per data channel, and makes it the current window: each channel
    /// is padded to the samples that `count` epochs hold, at the front while
    /// the cursor stands before the data and at the back otherwise. The
    /// cursor advances by `count` epochs whatever was delivered.
    pub fn read_epochs(&mut self, count: usize, fetched: Vec<Vec<SampleChunk>>) -> (r: Result<
        (),
        ReaderError,
    >)
        requires
            old(self).wf(),
            old(self).tell_spec() + count * EPOCH_MILLIS <= u64::MAX,
        ensures
            final(self).wf(),
            final(self).last_epoch_count_spec() == count,
            final(self).header_spec() == old(self).header_spec(),
            final(self).offset_spec() == old(self).offset_spec(),
            final(self).start_align_offset_spec() == old(self).start_align_offset_spec(),
            r == Err::<(), ReaderError>(ReaderError::LayoutMismatch) <==> fetched@.len()
                != old(self).record_spec().len(),
            r == Err::<(), ReaderError>(ReaderError::WindowTooLarge) <==> {
                &&& fetched@.len() == old(self).record_spec().len()
                &&& !windows_fit(old(self).header_spec(), count as int)
            },
            r == Err::<(), ReaderError>(ReaderError::ExcessSamples) <==> {
                &&& fetched@.len() == old(self).record_spec().len()
                &&& windows_fit(old(self).header_spec(), count as int)
                &&& exists|c: int|
                    0 <= c < fetched@.len() && chunks_len(#[trigger] fetched@[c]@) > window_samples(
                        old(self).header_spec(),
                        c,
                        count as int,
                    )
            },
            r is Ok <==> {
                &&& fetched@.len() == old(self).record_spec().len()
                &&& windows_fit(old(self).header_spec(), count as int)
                &&& forall|c: int|
                    0 <= c < fetched@.len() ==> chunks_len(#[trigger] fetched@[c]@) <= window_samples(
                        old(self).header_spec(),
                        c,
                        count as int,
                    )
            },
            r is Err ==> {
                &&& final(self).position_spec() == old(self).position_spec()
                &&& final(self).record_spec() == old(self).record_spec()
            },
            r is Ok ==> {
                &&& final(self).position_spec() == old(self).position_spec() + count
                    * EPOCH_MILLIS
                &&& final(self).tell_spec() == old(self).tell_spec() + count * EPOCH_MILLIS
                &&& forall|c: int|
                    0 <= c < final(self).record_spec().len() ==> padded_channel(
                        #[trigger] final(self).record_spec()[c]@,
                        fetched@[c]@,
                        window_samples(old(self).header_spec(), c, count as int) - chunks_len(
                            fetched@[c]@,
                        ),
                        old(self).position_spec() < 0,
                    )
                &&& forall|c: int|
                    0 <= c < final(self).record_spec().len() ==> chunks_len(
                        #[trigger] final(self).record_spec()[c]@,
                    ) == window_samples(old(self).header_spec(), c, count as int)
            },
    {
        self.last_epoch_count = count;
        let read_millis = count as u128 * EPOCH_MILLIS as u128;
        let padded_start = self.position < 0;
        if fetched.len() != self.record.len() {
            return Err(ReaderError::LayoutMismatch);
        }
        if !self.window_fits(count) {
            return Err(ReaderError::WindowTooLarge);
        }
        let ghost orig = fetched@;
        let ghost chans = self.header.channels@;
        let ghost data = data_channels(chans);
        let n = fetched.len();
        let mut rest = fetched;
        let mut out: Vec<Vec<SampleChunk>> = Vec::new();
        let mut i: usize = 0;
        let mut d: usize = 0;
        let ghost s0 = *self;
        while i < self.header.channels.len()
            invariant
                *self == s0,
                orig == fetched@,
                s0.wf(),
                s0.last_epoch_count == count,
                s0.header == old(self).header,
                s0.position == old(self).position,
                s0.record == old(self).record,
                s0.offset == old(self).offset,
                s0.start_align_offset == old(self).start_align_offset,
                self.header.channels@ == chans,
                data == data_channels(chans),
                self.record@.len() == data.len(),
                n == orig.len() == data.len(),
                self.header.record_duration_ms > 0,
                read_millis == count * EPOCH_MILLIS,
                read_millis <= u64::MAX,
                i <= chans.len(),
                d == data_channels(chans.subrange(0, i as int)).len(),
                data_channels(chans.subrange(0, i as int)) =~= data.subrange(0, d as int),
                d <= n,
                rest@ == orig.subrange(d as int, n as int),
                out@.len() == d,
                windows_fit(&s0.header, count as int),
                forall|c: int| 0 <= c < d ==> chunks_len(#[trigger] orig[c]@) <= samples_in_millis(
                    data[c].samples_per_record,
                    self.header.record_duration_ms,
                    count * EPOCH_MILLIS,
                ),
                forall|c: int|
                    0 <= c < d ==> padded_channel(
                        #[trigger] out@[c]@,
                        orig[c]@,
                        samples_in_millis(
                            data[c].samples_per_record,
                            self.header.record_duration_ms,
                            count * EPOCH_MILLIS,
                        ) - chunks_len(orig[c]@),
                        padded_start,
                    ),
                forall|c: int|
                    0 <= c < d ==> chunks_len(#[trigger] out@[c]@) == samples_in_millis(
                        data[c].samples_per_record,
                        self.header.record_duration_ms,
                        count * EPOCH_MILLIS,
                    ),
            decreases chans.len() - i,
        {
            proof {
                lemma_data_channels_step(chans, i as int);
                assert(data_channels(chans.subrange(0, i as int)).len() <= data_channels(
                    chans,
                ).len()) by {
                    lemma_data_channels_prefix(chans, i as int);
                }
            }
            if !self.header.channels[i].is_annotation {
                proof {
                    lemma_data_channels_prefix(chans, i + 1);
                    assert(data_channels(chans.subrange(0, i + 1)) =~= data.subrange(
                        0,
                        d + 1,
                    ));
                }
                let spr = self.header.channels[i].samples_per_record as u128;
                assert(spr * read_millis <= u128::MAX) by (nonlinear_arith)
                    requires
                        spr <= u64::MAX,
                        read_millis <= u64::MAX,
                ;
                let target = spr * read_millis / self.header.record_duration_ms as u128;
                let mut channel = rest.remove(0);
                let actual = total_samples(&channel);
                proof {
                    assert(channel == orig[d as int]);
                    assert(data.subrange(0, d + 1)[d as int] == data[d as int]);
                    assert(data_channels(chans.subrange(0, i + 1))[d as int] == chans[i as int]);
                }
                assert(target == window_samples(&s0.header, d as int, count as int));
                assert(window_samples(&s0.header, d as int, count as int) <= usize::MAX);
                if actual > target {
                    assert(chunks_len(orig[d as int]@) > window_samples(
                        old(self).header_spec(),
                        d as int,
                        count as int,
                    ));
                    return Err(ReaderError::ExcessSamples);
                }
                let pad = target - actual;
                if pad != 0 {
                    let pad_chunk = SampleChunk { samples: vec![0i32; pad as usize], is_padding: true };
                    assert(pad_chunk.samples@ =~= Seq::new(pad as nat, |k: int| 0i32));
                    let ghost before = channel@;
                    if padded_start {
                        channel.insert(0, pad_chunk);
                        proof {
                            assert(channel@ =~= seq![pad_chunk] + before);
                            lemma_chunks_len_prepend(pad_chunk, before);
                            assert(channel@.drop_first() =~= before);
                        }
                    } else {
                        channel.push(pad_chunk);
                        proof {
                            assert(channel@.drop_last() =~= before);
                        }
                    }
                }
                out.push(channel);
                d += 1;
                assert(rest@ =~= orig.subrange(d as int, n as int));
            }
            i += 1;
        }
        proof {
            assert(chans.subrange(0, i as int) =~= chans);
        }
        self.record = out;
        self.position = self.position + read_millis as i128;
        Ok(())
    }
}

/// Every data channel's window of `count` epochs fits in memory.
pub open spec fn windows_fit(header: &SourceHeader, count: int) -> bool {
    forall|c: int|
        0 <= c < data_channels(header.channels@).len() ==> #[trigger] window_samples(header, c, count)
            <= usize::MAX
}

impl EpochReader {
    fn window_fits(&self, count: usize) -> (r: bool)
        requires
            self.wf(),
            self.tell_spec() + count * EPOCH_MILLIS <= u64::MAX,
        ensures
            r == windows_fit(self.header_spec(), count as int),
    {
        let read_millis = count as u128 * EPOCH_MILLIS as u128;
        let ghost chans = self.header.channels@;
        let ghost data = data_channels(chans);
        let mut i: usize = 0;
        let mut d: usize = 0;
        while i < self.header.channels.len()
            invariant
                self.wf(),
                self.header.channels@ == chans,
                data == data_channels(chans),
                read_millis == count * EPOCH_MILLIS,
                read_millis <= u64::MAX,
                i <= chans.len(),
                d == data_channels(chans.subrange(0, i as int)).len(),
                data_channels(chans.subrange(0, i as int)) =~= data.subrange(0, d as int),
                d <= data.len(),
                forall|c: int| 0 <= c < d ==> #[trigger] window_samples(&self.header, c, count as int)
                    <= usize::MAX,
            decreases chans.len() - i,
        {
            proof {
                lemma_data_channels_step(chans, i as int);
                lemma_data_channels_prefix(chans, i as int);
            }
            if !self.header.channels[i].is_annotation {
                proof {
                    lemma_data_channels_prefix(chans, i + 1);
                    assert(data_channels(chans.subrange(0, i + 1)) =~= data.subrange(0, d + 1));
                    assert(data.subrange(0, d + 1)[d as int] == data[d as int]);
                    assert(data_channels(chans.subrange(0, i + 1))[d as int] == chans[i as int]);
                }
                let spr = self.header.channels[i].samples_per_record as u128;
                assert(spr * read_millis <= u128::MAX) by (nonlinear_arith)
                    requires
                        spr <= u64::MAX,
                        read_millis <= u64::MAX,
                ;
                let target = spr * read_millis / self.header.record_duration_ms as u128;
                proof {
                    lemma_data_channels_len(chans.subrange(0, i + 1));
                }
                if target > usize::MAX as u128 {
                    assert(window_samples(&self.header, d as int, count as int) > usize::MAX);
                    return false;
                }
                d += 1;
            }
            i += 1;
        }
        proof {
            assert(chans.subrange(0, i as int) =~= chans);
        }
        true
    }
}

proof fn lemma_data_channels_len(channels: Seq<ChannelInfo>)
    ensures
        data_channels(channels).len() <= channels.len(),
    decreases channels.len(),
{
    if channels.len() > 0 {
        lemma_data_channels_len(channels.drop_last());
    }
}

proof fn lemma_data_channels_prefix(channels: Seq<ChannelInfo>, i: int)
    requires
        0 <= i <= channels.len(),
    ensures
        data_channels(channels.subrange(0, i)) == data_channels(channels).subrange(
            0,
            data_channels(channels.subrange(0, i)).len() as int,
        ),
        data_channels(channels.subrange(0, i)).len() <= data_channels(channels).len(),
    decreases channels.len() - i,
{
    if i < channels.len() {
        lemma_data_channels_step(channels, i);
        lemma_data_channels_prefix(channels, i + 1);
    } else {
        assert(channels.subrange(0, i) =~= channels);
        assert(data_channels(channels).subrange(0, data_channels(channels).len() as int)
            =~= data_channels(channels));
    }
}

/// The samples of a run of chunks, in order, with padding samples as `None`.
pub open spec fn flat_samples(chunks: Seq<SampleChunk>) -> Seq<Option<i32>>
    decreases chunks.len(),
{
    if chunks.len() == 0 {
        Seq::empty()
    } else {
        flat_samples(chunks.drop_last()) + chunk_points(chunks.last())
    }
}

pub open spec fn chunk_points(chunk: SampleChunk) -> Seq<Option<i32>> {
    if chunk.is_padding {
        Seq::new(chunk.samples@.len(), |i: int| None::<i32>)
    } else {
        chunk.samples@.map_values(|v: i32| Some(v))
    }
}

/// A window of `count` epochs holds `count` times the samples of one epoch
/// on every channel whose epoch is a whole number of samples: each channel of
/// a successful `read_epochs(count)` then holds exactly that many.
pub proof fn lemma_padding_completeness(header: &SourceHeader, c: int, count: nat)
    requires
        header.record_duration_ms > 0,
        0 <= c < data_channels(header.channels@).len(),
        (data_channels(header.channels@)[c].samples_per_record * EPOCH_MILLIS)
            % header.record_duration_ms as int == 0,
    ensures
        window_samples(header, c, count as int) == count * epoch_samples_of(
            data_channels(header.channels@)[c].samples_per_record,
            header.record_duration_ms,
        ),
{
    let spr = data_channels(header.channels@)[c].samples_per_record as int;
    let rms = header.record_duration_ms as int;
    let k = spr * 30000 / rms;
    assert(spr * 30000 == k * rms) by (nonlinear_arith)
        requires
            (spr * 30000) % rms == 0,
            rms > 0,
            k == spr * 30000 / rms,
    ;
    assert(spr * (count * 30000) / rms == count * k) by (nonlinear_arith)
        requires
            spr * 30000 == k * rms,
            rms > 0,
    ;
}

impl EpochReader {
    /// The current window of every data channel, in channel order.
    pub fn get_chart_signals(&self) -> (r: Vec<ChartSignal>)
        requires
            self.wf(),
        ensures
            r@.len() == self.record_spec().len(),
            forall|c: int|
                0 <= c < r@.len() ==> {
                    &&& (#[trigger] r@[c]).index == c
                    &&& r@[c].label@ == data_channels(self.header_spec().channels@)[c].label@
                    &&& r@[c].samples@ == flat_samples(self.record_spec()[c]@)
                },
    {
        let ghost chans = self.header.channels@;
        let ghost data = data_channels(chans);
        let mut out: Vec<ChartSignal> = Vec::new();
        let mut i: usize = 0;
        let mut d: usize = 0;
        while i < self.header.channels.len()
            invariant
                self.wf(),
                self.header.channels@ == chans,
                data == data_channels(chans),
                i <= chans.len(),
                d == data_channels(chans.subrange(0, i as int)).len(),
                data_channels(chans.subrange(0, i as int)) =~= data.subrange(0, d as int),
                d <= data.len(),
                out@.len() == d,
                forall|c: int|
                    0 <= c < d ==> {
                        &&& (#[trigger] out@[c]).index == c
                        &&& out@[c].label@ == data[c].label@
                        &&& out@[c].samples@ == flat_samples(self.record@[c]@)
                    },
            decreases chans.len() - i,
        {
            proof {
                lemma_data_channels_step(chans, i as int);
                lemma_data_channels_prefix(chans, i as int);
            }
            if !self.header.channels[i].is_annotation {
                proof {
                    lemma_data_channels_prefix(chans, i + 1);
                    lemma_data_channels_len(chans.subrange(0, i + 1));
                    assert(data_channels(chans.subrange(0, i + 1)) =~= data.subrange(0, d + 1));
                    assert(data.subrange(0, d + 1)[d as int] == data[d as int]);
                    assert(data_channels(chans.subrange(0, i + 1))[d as int] == chans[i as int]);
                }
                let samples = flatten_chunks(&self.record[d]);
                let label = self.header.channels[i].label.clone();
                out.push(ChartSignal { index: d, label, samples });
                d += 1;
            }
            i += 1;
        }
        proof {
            assert(chans.subrange(0, i as int) =~= chans);
        }
        out
    }
}

fn flatten_chunks(chunks: &Vec<SampleChunk>) -> (r: Vec<Option<i32>>)
    ensures
        r@ == flat_samples(chunks@),
{
    let mut out: Vec<Option<i32>> = Vec::new();
    let mut i: usize = 0;
    while i < chunks.len()
        invariant
            i <= chunks@.len(),
            out@ == flat_samples(chunks@.subrange(0, i as int)),
        decreases chunks@.len() - i,
    {
        assert(chunks@.subrange(0, i + 1).drop_last() =~= chunks@.subrange(0, i as int));
        let chunk = &chunks[i];
        let ghost start = out@;
        let mut j: usize = 0;
        while j < chunk.samples.len()
            invariant
                j <= chunk.samples@.len(),
                out@ == start + chunk_points(*chunk).subrange(0, j as int),
            decreases chunk.samples@.len() - j,
        {
            if chunk.is_padding {
                out.push(None);
            } else {
                out.push(Some(chunk.samples[j]));
            }
            assert(out@ =~= start + chunk_points(*chunk).subrange(0, j + 1));
            j += 1;
        }
        assert(chunk_points(*chunk).subrange(0, j as int) =~= chunk_points(*chunk));
        i += 1;
    }
    assert(chunks@.subrange(0, i as int) =~= chunks@);
    out
}

impl EpochReader {
    /// The span, in whole seconds from the start of the source, of the
    /// epoch at which the last window starts.
    pub fn current_timeframe(&self) -> (r: (u64, u64))
        requires
            self.wf(),
            self.tell_spec() / EPOCH_MILLIS as int >= self.last_epoch_count_spec(),
            self.header_spec().channels@.len() > 0 ==> samples_per_second_of(
                self.header_spec().channels@[0].samples_per_record,
                self.header_spec().record_duration_ms,
            ) > 0,
            self.header_spec().channels@.len() > 0 ==> (self.tell_spec() / EPOCH_MILLIS as int
                - self.last_epoch_count_spec() + 1) * epoch_samples_of(
                self.header_spec().channels@[0].samples_per_record,
                self.header_spec().record_duration_ms,
            ) <= u128::MAX,
        ensures
            self.header_spec().channels@.len() == 0 ==> r == (0u64, 0u64),
            self.header_spec().channels@.len() > 0 ==> {
                let spr = self.header_spec().channels@[0].samples_per_record;
                let rms = self.header_spec().record_duration_ms;
                let start = (self.tell_spec() / EPOCH_MILLIS as int - self.last_epoch_count_spec())
                    * epoch_samples_of(spr, rms);
                let end = start + epoch_samples_of(spr, rms);
                r == (
                    clamp_to_u64(start / samples_per_second_of(spr, rms)),
                    clamp_to_u64(end / samples_per_second_of(spr, rms)),
                )
            },
    {
        if self.header.channels.len() == 0 {
            return (0, 0);
        }
        let spr = self.header.channels[0].samples_per_record as u128;
        let rms = self.header.record_duration_ms as u128;
        assert(spr * EPOCH_MILLIS <= u128::MAX) by (nonlinear_arith)
            requires
                spr <= u64::MAX,
        ;
        let epoch_samples = spr * EPOCH_MILLIS as u128 / rms;
        let sps = spr * 1000 / rms;
        let epoch = self.get_window_start_epoch() as u128;
        assert(epoch * epoch_samples + epoch_samples <= u128::MAX) by (nonlinear_arith)
            requires
                (epoch + 1) * epoch_samples <= u128::MAX,
        ;
        let start = epoch * epoch_samples;
        let end = start + epoch_samples;
        (clamp_u64(start / sps), clamp_u64(end / sps))
    }
}

/// Seconds from the Unix epoch to `t` read as UTC, as chrono computes them;
/// `None` where chrono rejects the date or the time of day.
pub uninterp spec fn utc_timestamp_of(
    year: int,
    month: int,
    day: int,
    hour: int,
    minute: int,
    second: int,
) -> Option<int>;

/// `utc_timestamp_of` applied to the fields of `t`.
pub open spec fn civil_timestamp_of(t: CivilDateTime) -> Option<int> {
    utc_timestamp_of(
        t.year as int,
        t.month as int,
        t.day as int,
        t.hour as int,
        t.minute as int,
        t.second as int,
    )
}

/// Relies on chrono's `NaiveDate::from_ymd_opt` and `NaiveDate::and_hms_opt`,
/// which reject an invalid date or time of day, and on `and_utc().timestamp()`,
/// which depends on the date and time alone.
#[verifier::external_body]
fn utc_timestamp(t: CivilDateTime) -> (r: Option<i64>)
    ensures
        r is None <==> utc_timestamp_of(
            t.year as int,
            t.month as int,
            t.day as int,
            t.hour as int,
            t.minute as int,
            t.second as int,
        ) is None,
        r matches Some(v) ==> utc_timestamp_of(
            t.year as int,
            t.month as int,
            t.day as int,
            t.hour as int,
            t.minute as int,
            t.second as int,
        ) == Some(v as int),
{
    match chrono::NaiveDate::from_ymd_opt(t.year, t.month, t.day) {
        Some(date) => match date.and_hms_opt(t.hour, t.minute, t.second) {
            Some(stamp) => Some(stamp.and_utc().timestamp()),
            None => None,
        },
        None => None,
    }
}

impl EpochReader {
    /// Unix time, in seconds, at which the recording started; `None` for a
    /// start that is not a valid date and time or lies before 1970.
    pub fn start_timestamp(&self) -> (r: Option<u64>)
        ensures
            r is Some <==> (civil_timestamp_of(self.header_spec().start) matches Some(v) && v >= 0),
            r matches Some(v) ==> civil_timestamp_of(self.header_spec().start) == Some(v as int),
    {
        match utc_timestamp(self.header.start) {
            Some(v) => if v >= 0 {
                Some(v as u64)
            } else {
                None
            },
            None => None,
        }
    }
}

/// Where a window of `segment_count` epochs starts after moving by
/// `direction` epochs from a window that ends at `tell`: `tell` less the
/// epochs not kept; 0 where that falls outside the `u64` range.
pub open spec fn segmented_seek_target_of(tell: int, segment_count: int, direction: int) -> u64 {
    let v = tell - EPOCH_MILLIS * (segment_count - direction);
    if 0 <= v <= u64::MAX {
        v as u64
    } else {
        0
    }
}

/// Whether the view may move by `direction` epochs: it may not move forward
/// from the last epoch.
pub open spec fn can_move_of(current_epoch: int, max_epoch: int, direction: int) -> bool {
    !(current_epoch == max_epoch - 1 && direction == 1)
}

pub fn can_move(current_epoch: u64, max_epoch: u64, direction: i8) -> (r: bool)
    ensures
        r == can_move_of(current_epoch as int, max_epoch as int, direction as int),
{
    !(max_epoch >= 1 && current_epoch == max_epoch - 1 && direction == 1)
}

impl EpochReader {
    /// Position for `seek` before reading `segment_count` epochs so that the
    /// window moves by `direction` epochs.
    pub fn segmented_seek_target(&self, segment_count: usize, direction: i8) -> (r: u64)
        requires
            self.wf(),
        ensures
            r == segmented_seek_target_of(
                self.tell_spec(),
                segment_count as int,
                direction as int,
            ),
    {
        let shift = EPOCH_MILLIS as i128 * (segment_count as i128 - direction as i128);
        let v = self.tell() - shift;
        if 0 <= v && v <= u64::MAX as i128 {
            v as u64
        } else {
            0
        }
    }
}

} // verus!
