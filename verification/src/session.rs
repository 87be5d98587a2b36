//! Decoder sessions: the live decoding state bound to one track.
//!
//! A session is created from the raw bytes of a track, exposes the track's
//! sample rate (fixed for the session's lifetime) and a forward-only cursor
//! over the track's interleaved samples; end of stream is permanent.

use vstd::prelude::*;

verus! {

/// Why a byte stream failed to become a decoder session.
#[derive(Clone, Copy, Debug, PartialEq, Eq, Structural)]
pub enum DecodeError {
    /// The decoder accepts nothing in the stream (unreadable or corrupt
    /// header, or a rate of zero reported for its first frame).
    UnsupportedStream,
    /// The stream decoded to no samples at all.
    EmptyStream,
}

/// What the audio decoder makes of a byte stream: `None` where the stream
/// cannot be opened at all, otherwise one entry per decoded frame holding
/// the frame's sample rate and its interleaved samples.
pub uninterp spec fn mp3_frames(bytes: Seq<u8>) -> Option<Seq<(u32, Seq<i16>)>>;

/// Relies on `simplemad::Decoder::decode` and `simplemad::Frame`: decoding a
/// byte stream held fully in memory depends on its bytes alone. Each frame
/// comes back as its sample rate and its samples interleaved (sample `i` of
/// channel `c` at position `i * channels + c`) as 16-bit values; frames the
/// decoder reports as errors are passed over, as its own iterator does at
/// end of stream.
#[verifier::external_body]
fn decode_frames(bytes: &Vec<u8>) -> (r: Option<Vec<(u32, Vec<i16>)>>)
    ensures
        r is Some <==> mp3_frames(bytes@) is Some,
        (r matches Some(frames) ==> mp3_frames(bytes@) == Some(
            frames@.map_values(|f: (u32, Vec<i16>)| (f.0, f.1@)),
        )),
{
    let mut dec = match simplemad::Decoder::decode(std::io::Cursor::new(bytes.clone())) {
        Ok(d) => d,
        Err(_) => return None,
    };
    let mut frames: Vec<(u32, Vec<i16>)> = Vec::new();
    while let Some(res) = dec.next() {
        if let Ok(f) = res {
            let mut flat: Vec<i16> = Vec::new();
            for i in 0..f.samples.first().map_or(0, |c| c.len()) {
                for ch in 0..f.samples.len() { flat.push(f.samples[ch][i].to_i16()); }
            }
            frames.push((f.sample_rate, flat));
        }
    }
    Some(frames)
}

/// The samples of a decode, flattened frame by frame in order.
pub open spec fn concat_frames(fs: Seq<(u32, Seq<i16>)>) -> Seq<i16>
    decreases fs.len(),
{
    if fs.len() == 0 {
        Seq::empty()
    } else {
        concat_frames(fs.drop_last()) + fs.last().1
    }
}

proof fn lemma_concat_frames_step(fs: Seq<(u32, Seq<i16>)>, i: int)
    requires
        0 <= i < fs.len(),
    ensures
        concat_frames(fs.take(i + 1)) == concat_frames(fs.take(i)) + fs[i].1,
{
    assert(fs.take(i + 1).drop_last() =~= fs.take(i));
    assert(fs.take(i + 1).last() == fs[i]);
}

/// The mathematical content of a decoder session.
pub struct SessionModel {
    /// Samples per second, fixed for the session's lifetime.
    pub rate: u32,
    /// Every interleaved sample of the track.
    pub samples: Seq<i16>,
    /// How many samples the cursor has passed.
    pub pos: int,
}

impl SessionModel {
    /// A session is well formed when its rate is usable and its cursor
    /// stands inside (or just past) its samples.
    pub open spec fn wf(self) -> bool {
        &&& self.rate >= 1
        &&& 0 <= self.pos <= self.samples.len()
    }

    /// How many samples the cursor has still to hand out.
    pub open spec fn remaining(self) -> int {
        self.samples.len() - self.pos
    }
}

/// The live decoding state bound to one track.
pub struct Session {
    rate: u32,
    samples: Vec<i16>,
    pos: usize,
}

impl View for Session {
    type V = SessionModel;

    closed spec fn view(&self) -> SessionModel {
        SessionModel { rate: self.rate, samples: self.samples@, pos: self.pos as int }
    }
}

/// The track length in whole milliseconds that a session reports: one
/// frame is a stereo pair, so half the sample count, scaled by the rate
/// (saturating at the largest representable value).
pub open spec fn spec_duration_ms(m: SessionModel) -> u64 {
    let ms = (m.samples.len() as int / 2) * 1000 / (m.rate as int);
    if ms > u64::MAX {
        u64::MAX
    } else {
        ms as u64
    }
}

impl Session {
    /// Open a decoder session over the raw bytes of one track.
    ///
    /// Fails exactly where the decoder accepts nothing in the stream, where
    /// the decode reports a first-frame rate of zero, or where the decode
    /// yields no samples at all; otherwise the session holds every decoded
    /// sample with its cursor at the start.
    pub fn open(bytes: &Vec<u8>) -> (r: Result<Session, DecodeError>)
        ensures
            mp3_frames(bytes@) is None ==> r == Err::<Session, DecodeError>(
                DecodeError::UnsupportedStream,
            ),
            (mp3_frames(bytes@) matches Some(fs) ==> {
                let all = concat_frames(fs);
                if fs.len() == 0 || all.len() == 0 {
                    r == Err::<Session, DecodeError>(DecodeError::EmptyStream)
                } else if fs[0].0 == 0 {
                    r == Err::<Session, DecodeError>(DecodeError::UnsupportedStream)
                } else {
                    r matches Ok(s) && s@ == (SessionModel {
                        rate: fs[0].0,
                        samples: all,
                        pos: 0,
                    }) && s@.wf()
                }
            }),
    {
        let frames = match decode_frames(bytes) {
            Some(frames) => frames,
            None => {
                return Err(DecodeError::UnsupportedStream);
            },
        };
        let ghost fs = frames@.map_values(|f: (u32, Vec<i16>)| (f.0, f.1@));
        if frames.len() == 0 {
            assert(concat_frames(fs) =~= Seq::<i16>::empty());
            return Err(DecodeError::EmptyStream);
        }
        let rate = frames[0].0;
        let mut samples: Vec<i16> = Vec::new();
        let mut i: usize = 0;
        while i < frames.len()
            invariant
                0 <= i <= frames.len(),
                fs == frames@.map_values(|f: (u32, Vec<i16>)| (f.0, f.1@)),
                samples@ == concat_frames(fs.take(i as int)),
            decreases frames.len() - i,
        {
            samples.extend_from_slice(frames[i].1.as_slice());
            proof {
                lemma_concat_frames_step(fs, i as int);
            }
            i = i + 1;
        }
        assert(fs.take(frames.len() as int) =~= fs);
        if samples.len() == 0 {
            return Err(DecodeError::EmptyStream);
        }
        if rate == 0 {
            return Err(DecodeError::UnsupportedStream);
        }
        Ok(Session { rate, samples, pos: 0 })
    }

    /// A session over samples already decoded, at a fixed rate: the same
    /// validation `open` applies, for callers that hold the samples as
    /// plain values.
    pub fn from_parts(rate: u32, samples: Vec<i16>) -> (r: Result<Session, DecodeError>)
        ensures
            rate == 0 ==> r == Err::<Session, DecodeError>(DecodeError::UnsupportedStream),
            rate >= 1 && samples@.len() == 0 ==> r == Err::<Session, DecodeError>(
                DecodeError::EmptyStream,
            ),
            rate >= 1 && samples@.len() > 0 ==> (r matches Ok(s) && s@ == (SessionModel {
                rate,
                samples: samples@,
                pos: 0,
            }) && s@.wf()),
    {
        if rate == 0 {
            Err(DecodeError::UnsupportedStream)
        } else if samples.len() == 0 {
            Err(DecodeError::EmptyStream)
        } else {
            Ok(Session { rate, samples, pos: 0 })
        }
    }

    /// The sample rate the track was decoded at.
    pub fn sample_rate(&self) -> (r: u32)
        ensures
            r == self@.rate,
    {
        self.rate
    }

    /// How many samples are left before end of stream.
    pub fn remaining(&self) -> (r: usize)
        requires
            self@.wf(),
        ensures
            r == self@.remaining(),
    {
        self.samples.len() - self.pos
    }

    /// Hand out the next interleaved sample and advance the cursor; `None`,
    /// permanently, once the stream is exhausted.
    pub fn next_sample(&mut self) -> (r: Option<i16>)
        requires
            old(self)@.wf(),
        ensures
            final(self)@.wf(),
            final(self)@.rate == old(self)@.rate,
            final(self)@.samples == old(self)@.samples,
            old(self)@.remaining() > 0 ==> r == Some(old(self)@.samples[old(self)@.pos])
                && final(self)@.pos == old(self)@.pos + 1,
            old(self)@.remaining() == 0 ==> r is None && final(self)@.pos == old(self)@.pos,
    {
        if self.pos < self.samples.len() {
            let s = self.samples[self.pos];
            self.pos = self.pos + 1;
            Some(s)
        } else {
            None
        }
    }

    /// The track's duration in whole milliseconds, computed from its sample
    /// count and rate.
    pub fn duration_ms(&self) -> (r: u64)
        requires
            self@.wf(),
        ensures
            r == spec_duration_ms(self@),
    {
        let total = (self.samples.len() as u128 / 2) * 1000 / (self.rate as u128);
        if total > u64::MAX as u128 {
            u64::MAX
        } else {
            total as u64
        }
    }
}

} // verus!
