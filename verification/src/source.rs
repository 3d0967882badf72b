//! The capability contract shared by every stage of the pipeline: lazy item
//! production, stream metadata, and optional seeking.

use vstd::prelude::*;

pub mod buffer;
pub mod done;

verus! {

/// A span of playback time, counted in nanoseconds.
///
/// Total durations and seek targets are expressed with this type.
#[derive(Clone, Copy, Debug, PartialEq, Eq, Structural)]
pub struct TimeSpan {
    pub nanos: u64,
}

/// Why a seek request failed. A failed seek leaves the source usable, with
/// its remaining items unchanged.
#[derive(Clone, Copy, Debug, PartialEq, Eq, Structural)]
pub enum SeekError {
    /// The source cannot reposition itself at all.
    NotSupported,
    /// The requested position lies outside the playable range.
    OutOfRange,
}

/// A lazy producer of audio sample items plus stream metadata.
///
/// Every pipeline stage — decoders, generators, decorators — implements this
/// contract, so any source can wrap, or be wrapped by, any other. Items are
/// consumed destructively: each call to [`Source::next`] either hands out the
/// next item or signals the end of the stream, and once the end has been
/// reached further calls keep signalling it (unless a later seek repositions
/// the source). Decorators rely on that repeatable exhaustion signal.
pub trait Source: Sized {
    /// The sample type this source produces.
    type Item;

    /// The items this source has still to produce, in order.
    spec fn remaining(&self) -> Seq<Self::Item>;

    /// The channel count the source currently reports.
    spec fn spec_channels(&self) -> u16;

    /// The sample rate the source currently reports.
    spec fn spec_sample_rate(&self) -> u32;

    /// The current-frame hint the source currently reports.
    spec fn spec_current_frame_len(&self) -> Option<usize>;

    /// The total-duration estimate the source currently reports.
    spec fn spec_total_duration(&self) -> Option<TimeSpan>;

    /// What a seek to `pos` from the current state yields: the new remaining
    /// items on success, or the error the source answers with.
    spec fn seek_result(&self, pos: TimeSpan) -> Result<Seq<Self::Item>, SeekError>;

    /// Produces the next item, or `None` once the source is exhausted.
    /// Calling again after exhaustion keeps returning `None` and leaves the
    /// source unchanged.
    fn next(&mut self) -> (r: Option<Self::Item>)
        ensures
            old(self).remaining().len() == 0 ==> r is None && final(self).remaining()
                == old(self).remaining(),
            old(self).remaining().len() > 0 ==> r == Some(old(self).remaining()[0])
                && final(self).remaining() == old(self).remaining().skip(1),
    ;

    /// A hint: how many items remain in the current uniform-format frame,
    /// `None` when unknown or unbounded. Consumers must not use it for end
    /// detection; only [`Source::next`] decides that.
    fn current_frame_len(&self) -> (r: Option<usize>)
        ensures
            r == self.spec_current_frame_len(),
    ;

    /// The number of channels, always positive. It may change across frame
    /// boundaries.
    fn channels(&self) -> (r: u16)
        ensures
            r == self.spec_channels(),
            r >= 1,
    ;

    /// The sample rate in samples per second, always positive. It may change
    /// across frame boundaries.
    fn sample_rate(&self) -> (r: u32)
        ensures
            r == self.spec_sample_rate(),
            r >= 1,
    ;

    /// An estimate of the total playback time, `None` when unknown or
    /// unbounded.
    fn total_duration(&self) -> (r: Option<TimeSpan>)
        ensures
            r == self.spec_total_duration(),
    ;

    /// Attempts to reposition the stream at playback time `pos`. On failure
    /// the error is reported and the remaining items are left unchanged.
    fn try_seek(&mut self, pos: TimeSpan) -> (r: Result<(), SeekError>)
        ensures
            (match old(self).seek_result(pos) {
                Ok(s) => r == Ok::<(), SeekError>(()) && final(self).remaining() == s,
                Err(e) => r == Err::<(), SeekError>(e)
                    && final(self).remaining() == old(self).remaining(),
            }),
    ;
}

} // verus!
