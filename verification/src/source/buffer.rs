//! A source backed by a buffer of samples held in memory: the simplest
//! concrete implementation of the [`Source`] contract, and the usual leaf of
//! a decorated pipeline.

use vstd::prelude::*;

use crate::source::{SeekError, Source, TimeSpan};

verus! {

/// The number of nanoseconds in one second.
pub const NANOS_PER_SEC: u64 = 1_000_000_000;

/// A source that plays a buffer of interleaved samples at a fixed channel
/// count and sample rate.
pub struct SamplesBuffer {
    data: Vec<i16>,
    pos: usize,
    channels: u16,
    sample_rate: u32,
}

impl SamplesBuffer {
    /// The state every `SamplesBuffer` keeps: the read position never runs
    /// past the buffer, and the stream format is positive.
    #[verifier::type_invariant]
    pub closed spec fn wf(&self) -> bool {
        &&& self.pos <= self.data@.len()
        &&& self.channels >= 1
        &&& self.sample_rate >= 1
    }

    /// Builds a buffer source over `data`, to be played with `channels`
    /// interleaved channels at `sample_rate` samples per second.
    pub fn new(data: Vec<i16>, channels: u16, sample_rate: u32) -> (r: SamplesBuffer)
        requires
            channels >= 1,
            sample_rate >= 1,
        ensures
            r.remaining() == data@,
            r.spec_channels() == channels,
            r.spec_sample_rate() == sample_rate,
    {
        let r = SamplesBuffer { data, pos: 0, channels, sample_rate };
        proof {
            assert(r.remaining() =~= r.data@);
        }
        r
    }
}

impl Source for SamplesBuffer {
    type Item = i16;

    closed spec fn remaining(&self) -> Seq<i16> {
        self.data@.skip(self.pos as int)
    }

    closed spec fn spec_channels(&self) -> u16 {
        self.channels
    }

    closed spec fn spec_sample_rate(&self) -> u32 {
        self.sample_rate
    }

    closed spec fn spec_current_frame_len(&self) -> Option<usize> {
        Some((self.data@.len() - self.pos) as usize)
    }

    closed spec fn spec_total_duration(&self) -> Option<TimeSpan> {
        let nanos = (self.data@.len() as int * NANOS_PER_SEC as int) / (self.channels as int
            * self.sample_rate as int);
        if nanos <= u64::MAX {
            Some(TimeSpan { nanos: nanos as u64 })
        } else {
            None
        }
    }

    closed spec fn seek_result(&self, pos: TimeSpan) -> Result<Seq<i16>, SeekError> {
        let idx = ((pos.nanos as int) * (self.sample_rate as int) / (NANOS_PER_SEC as int)) * (
        self.channels as int);
        if idx <= self.data@.len() {
            Ok(self.data@.skip(idx))
        } else {
            Err(SeekError::OutOfRange)
        }
    }

    fn next(&mut self) -> (r: Option<i16>) {
        proof {
            use_type_invariant(&*self);
        }
        if self.pos < self.data.len() {
            let v: i16 = self.data[self.pos];
            self.pos = self.pos + 1;
            proof {
                assert(self.remaining() =~= old(self).remaining().skip(1));
            }
            Some(v)
        } else {
            None
        }
    }

    fn current_frame_len(&self) -> (r: Option<usize>) {
        proof {
            use_type_invariant(&*self);
        }
        Some(self.data.len() - self.pos)
    }

    fn channels(&self) -> (r: u16) {
        proof {
            use_type_invariant(&*self);
        }
        self.channels
    }

    fn sample_rate(&self) -> (r: u32) {
        proof {
            use_type_invariant(&*self);
        }
        self.sample_rate
    }

    fn total_duration(&self) -> (r: Option<TimeSpan>) {
        proof {
            use_type_invariant(&*self);
        }
        let total: u128 = (self.data.len() as u128) * (NANOS_PER_SEC as u128);
        let c: u128 = self.channels as u128;
        let s: u128 = self.sample_rate as u128;
        proof {
            assert(1 <= c * s && c * s <= 281470681677825u128) by (nonlinear_arith)
                requires
                    1 <= c && c <= 65535u128,
                    1 <= s && s <= 4294967295u128,
            ;
        }
        let divisor: u128 = c * s;
        let nanos: u128 = total / divisor;
        if nanos <= u64::MAX as u128 {
            Some(TimeSpan { nanos: nanos as u64 })
        } else {
            None
        }
    }

    fn try_seek(&mut self, pos: TimeSpan) -> (r: Result<(), SeekError>) {
        proof {
            use_type_invariant(&*self);
        }
        let n: u128 = pos.nanos as u128;
        let s: u128 = self.sample_rate as u128;
        proof {
            assert(n * s <= 79228162495817593519834398720u128) by (nonlinear_arith)
                requires
                    n <= 18446744073709551615u128,
                    s <= 4294967295u128,
            ;
        }
        let frames: u128 = n * s / (NANOS_PER_SEC as u128);
        let c: u128 = self.channels as u128;
        proof {
            vstd::arithmetic::div_mod::lemma_div_is_ordered(
                (n * s) as int,
                79228162495817593519834398720int,
                NANOS_PER_SEC as int,
            );
            assert(frames * c <= 170141183460469231731687303715884105727u128) by (nonlinear_arith)
                requires
                    frames as int <= 79228162495817593519834398720int / 1000000000int,
                    c <= 65535u128,
            ;
        }
        let idx: u128 = frames * c;
        if idx <= self.data.len() as u128 {
            self.pos = idx as usize;
            Ok(())
        } else {
            Err(SeekError::OutOfRange)
        }
    }
}

} // verus!
