//! Audio sources: how a frame is filled from a stream of bytes, and how the
//! reference source, an `ffmpeg` process, is started.
//!
//! A source yields 16-bit samples at 48 kHz, the channels interleaved,
//! least significant byte first on the wire.

use vstd::prelude::*;
use vstd::string::*;
use byteorder::ByteOrder;

verus! {

/// What one attempt to read from a stream of bytes gave.
#[derive(Debug, Clone, Copy, PartialEq, Eq, Structural)]
pub enum ReadOutcome {
    /// So many bytes were read; none means that the stream has ended.
    Read(usize),
    /// The attempt was interrupted and may be repeated.
    Interrupted,
    /// Reading failed.
    Failed,
}

/// What to do after an attempt to read.
#[derive(Debug, Clone, Copy, PartialEq, Eq, Structural)]
pub enum FillStep {
    /// Read again, into what is left of the buffer.
    Continue,
    /// The buffer is full or the stream has ended: so many bytes were read
    /// in all.
    Done(usize),
    /// Reading failed.
    Failed,
}

/// A buffer that is being filled from a stream: unlike an exact read, a
/// stream that ends early is no error.
#[derive(Debug, Clone, Copy, PartialEq, Eq, Structural)]
pub struct Fill {
    capacity: usize,
    filled: usize,
}

/// The mathematical form of a [`Fill`].
pub struct FillView {
    /// Bytes in the buffer.
    pub capacity: usize,
    /// Bytes read so far.
    pub filled: usize,
}

impl View for Fill {
    type V = FillView;

    closed spec fn view(&self) -> FillView {
        FillView { capacity: self.capacity, filled: self.filled }
    }
}

impl FillView {
    /// The count never passes the capacity.
    pub open spec fn wf(self) -> bool {
        self.filled <= self.capacity
    }

    /// What becomes of the count, and what to do, after an attempt to read.
    pub open spec fn after(self, outcome: ReadOutcome) -> (FillView, FillStep) {
        match outcome {
            ReadOutcome::Failed => (self, FillStep::Failed),
            ReadOutcome::Interrupted => (
                self,
                if self.filled == self.capacity {
                    FillStep::Done(self.filled)
                } else {
                    FillStep::Continue
                },
            ),
            ReadOutcome::Read(n) => {
                let read = if n <= self.capacity - self.filled {
                    n
                } else {
                    (self.capacity - self.filled) as usize
                };
                let filled = (self.filled + read) as usize;
                (
                    FillView { capacity: self.capacity, filled },
                    if read == 0 || filled == self.capacity {
                        FillStep::Done(filled)
                    } else {
                        FillStep::Continue
                    },
                )
            },
        }
    }

}

impl Fill {
    #[verifier::type_invariant]
    spec fn inv(self) -> bool {
        self.filled <= self.capacity
    }

    /// An empty buffer of the given size.
    pub fn new(capacity: usize) -> (r: Fill)
        ensures
            r@ == (FillView { capacity, filled: 0 }),
    {
        Fill { capacity, filled: 0 }
    }

    /// Bytes read so far.
    pub fn filled(&self) -> (r: usize)
        ensures
            r == self@.filled,
            self@.wf(),
    {
        proof {
            use_type_invariant(self);
        }
        self.filled
    }

    /// Bytes that the buffer still has room for.
    pub fn remaining(&self) -> (r: usize)
        ensures
            r == self@.capacity - self@.filled,
    {
        proof {
            use_type_invariant(self);
        }
        self.capacity - self.filled
    }

    /// Takes in what an attempt to read into the rest of the buffer gave.
    /// Reading goes on until the buffer is full or the stream has ended; an
    /// interrupted attempt is repeated; a failure ends it.
    pub fn on_read(&mut self, outcome: ReadOutcome) -> (r: FillStep)
        ensures
            (final(self)@, r) == old(self)@.after(outcome),
            old(self)@.wf(),
            final(self)@.wf(),
    {
        proof {
            use_type_invariant(&*self);
        }
        match outcome {
            ReadOutcome::Failed => FillStep::Failed,
            ReadOutcome::Interrupted => {
                if self.filled == self.capacity {
                    FillStep::Done(self.filled)
                } else {
                    FillStep::Continue
                }
            },
            ReadOutcome::Read(n) => {
                let room = self.capacity - self.filled;
                let read = if n <= room {
                    n
                } else {
                    room
                };
                self.filled = self.filled + read;
                if read == 0 || self.filled == self.capacity {
                    FillStep::Done(self.filled)
                } else {
                    FillStep::Continue
                }
            },
        }
    }
}

/// The sample that two bytes write, least significant first.
pub open spec fn sample_of(lo: u8, hi: u8) -> i16 {
    if lo + 256 * hi < 0x8000 {
        (lo + 256 * hi) as i16
    } else {
        (lo + 256 * hi - 0x1_0000) as i16
    }
}

/// `byteorder::LittleEndian::read_i16`. Trusted: it reads two bytes as a
/// signed number in two's complement, least significant byte first.
#[verifier::external_body]
fn le_i16(bytes: &[u8; 2]) -> (r: i16)
    ensures
        r == sample_of(bytes@[0], bytes@[1]),
{
    byteorder::LittleEndian::read_i16(bytes)
}

/// Turns the bytes that were read into samples, at the start of `samples`;
/// returns the number of samples.
pub fn pcm_samples(bytes: &[u8], samples: &mut [i16]) -> (n: usize)
    requires
        bytes@.len() % 2 == 0,
        old(samples)@.len() * 2 >= bytes@.len(),
    ensures
        n * 2 == bytes@.len(),
        final(samples)@.len() == old(samples)@.len(),
        forall|i: int| 0 <= i < n ==> final(samples)@[i] == sample_of(bytes@[2 * i], bytes@[2 * i + 1]),
        forall|i: int| n <= i < final(samples)@.len() ==> final(samples)@[i] == old(samples)@[i],
{
    let n = bytes.len() / 2;
    let mut i: usize = 0;
    while i < n
        invariant
            i <= n,
            n * 2 == bytes@.len(),
            n * 2 <= usize::MAX,
            samples@.len() == old(samples)@.len(),
            samples@.len() >= n,
            forall|k: int| 0 <= k < i ==> samples@[k] == sample_of(bytes@[2 * k], bytes@[2 * k + 1]),
            forall|k: int| i <= k < samples@.len() ==> samples@[k] == old(samples)@[k],
        decreases n - i,
    {
        let pair: [u8; 2] = [bytes[2 * i], bytes[2 * i + 1]];
        samples[i] = le_i16(&pair);
        i = i + 1;
    }
    n
}

/// The arguments with which `ffmpeg` turns the file at `path` into samples
/// on its standard output, amplified by `volume`, a decimal number.
pub open spec fn ffmpeg_arguments(path: Seq<char>, volume: Seq<char>, is_stereo: bool) -> Seq<
    Seq<char>,
> {
    seq![
        "-i"@,
        path,
        "-af"@,
        "volume="@ + volume,
        "-f"@,
        "s16le"@,
        "-ac"@,
        if is_stereo {
            "2"@
        } else {
            "1"@
        },
        "-ar"@,
        "48000"@,
        "-acodec"@,
        "pcm_s16le"@,
        "-"@,
    ]
}

/// The arguments with which to start `ffmpeg`.
pub fn ffmpeg_args(path: &str, volume: &str, is_stereo: bool) -> (r: Vec<String>)
    ensures
        crate::decode::string_views(r@) == ffmpeg_arguments(path@, volume@, is_stereo),
{
    let mut filter = String::from_str("volume=");
    filter.append(volume);
    let mut r: Vec<String> = Vec::new();
    r.push(String::from_str("-i"));
    r.push(String::from_str(path));
    r.push(String::from_str("-af"));
    r.push(filter);
    r.push(String::from_str("-f"));
    r.push(String::from_str("s16le"));
    r.push(String::from_str("-ac"));
    r.push(
        String::from_str(
            if is_stereo {
                "2"
            } else {
                "1"
            },
        ),
    );
    r.push(String::from_str("-ar"));
    r.push(String::from_str("48000"));
    r.push(String::from_str("-acodec"));
    r.push(String::from_str("pcm_s16le"));
    r.push(String::from_str("-"));
    assert(crate::decode::string_views(r@) =~= ffmpeg_arguments(path@, volume@, is_stereo));
    r
}

} // verus!
