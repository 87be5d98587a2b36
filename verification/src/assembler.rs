//! The frame assembler: packing a session's flat sample sequence into a
//! fixed-size buffer of stereo frames for one write to the output device.

use vstd::prelude::*;

use crate::session::Session;
use crate::session::SessionModel;

verus! {

/// How many stereo frames one output buffer holds.
pub const BUFFER_SIZE: usize = 1000;

/// How many samples the assembler pulls for a buffer of `n` frames when the
/// session has `remaining` samples left.
pub open spec fn pulled_samples(n: int, remaining: int) -> int {
    if remaining < 2 * n {
        remaining
    } else {
        2 * n
    }
}

/// How many frames a pull of `avail` samples fills or touches: every full
/// pair, plus one frame for an unmatched trailing sample.
pub open spec fn frames_touched(avail: int) -> int {
    (avail + 1) / 2
}

/// What one assembler run leaves in the buffer: frame `k` of a full pair
/// holds samples `2k` and `2k + 1` counted from the session's cursor; a
/// trailing unmatched sample lands in the left channel of one more frame
/// whose right channel keeps its previous value; frames past the touched
/// ones keep their previous value.
pub open spec fn assembled(buf: Seq<(i16, i16)>, s: SessionModel, avail: int) -> Seq<(i16, i16)> {
    Seq::new(
        buf.len(),
        |k: int|
            if k < avail / 2 {
                (s.samples[s.pos + 2 * k], s.samples[s.pos + 2 * k + 1])
            } else if k == avail / 2 && avail % 2 == 1 {
                (s.samples[s.pos + 2 * k], buf[k].1)
            } else {
                buf[k]
            },
    )
}

/// Law: packing a session that holds exactly `2n` samples touches exactly
/// `n` frames, each equal to its input pair in order, and leaves the rest
/// of the buffer unchanged; a session of `2n + 1` samples touches `n + 1`
/// frames, the unmatched trailing sample landing in the left channel of the
/// last one while its right channel keeps the buffer's previous value — the
/// documented edge case, not silent data loss.
pub proof fn lemma_assembler_round_trip(buf: Seq<(i16, i16)>, s: SessionModel, n: int)
    requires
        s.wf(),
        s.pos == 0,
        buf.len() == BUFFER_SIZE,
        0 <= n <= BUFFER_SIZE,
    ensures
        s.samples.len() == 2 * n ==> frames_touched(
            pulled_samples(BUFFER_SIZE as int, s.remaining()),
        ) == n,
        s.samples.len() == 2 * n ==> {
            let out = assembled(buf, s, pulled_samples(BUFFER_SIZE as int, s.remaining()));
            &&& (forall|k: int|
                0 <= k < n ==> out[k] == (s.samples[2 * k], s.samples[2 * k + 1]))
            &&& (forall|k: int| n <= k < buf.len() ==> out[k] == buf[k])
        },
        s.samples.len() == 2 * n + 1 && n < BUFFER_SIZE ==> frames_touched(
            pulled_samples(BUFFER_SIZE as int, s.remaining()),
        ) == n + 1,
        s.samples.len() == 2 * n + 1 && n < BUFFER_SIZE ==> {
            let out = assembled(buf, s, pulled_samples(BUFFER_SIZE as int, s.remaining()));
            &&& (forall|k: int|
                0 <= k < n ==> out[k] == (s.samples[2 * k], s.samples[2 * k + 1]))
            &&& out[n] == (s.samples[2 * n], buf[n].1)
            &&& (forall|k: int| n < k < buf.len() ==> out[k] == buf[k])
        },
{
}

/// Pull up to two samples per buffer frame from the session and pack them
/// as stereo pairs: the even sample to the left channel, the odd one to the
/// right. A session that ends on an unmatched sample still advances the
/// frame count, leaving that frame's right channel at its previous buffer
/// value; a session with nothing left yields zero frames, the end-of-track
/// signal.
#[verifier::loop_isolation(false)]
pub fn iter_to_buffer(session: &mut Session, buffer: &mut Vec<(i16, i16)>) -> (n: usize)
    requires
        old(session)@.wf(),
        old(buffer)@.len() == BUFFER_SIZE,
    ensures
        final(session)@.wf(),
        final(session)@.rate == old(session)@.rate,
        final(session)@.samples == old(session)@.samples,
        final(session)@.pos == old(session)@.pos + pulled_samples(
            BUFFER_SIZE as int,
            old(session)@.remaining(),
        ),
        n == frames_touched(pulled_samples(BUFFER_SIZE as int, old(session)@.remaining())),
        final(buffer)@ == assembled(
            old(buffer)@,
            old(session)@,
            pulled_samples(BUFFER_SIZE as int, old(session)@.remaining()),
        ),
{
    let ghost s0 = old(session)@;
    let ghost avail = pulled_samples(BUFFER_SIZE as int, s0.remaining());
    let mut index: usize = 0;
    loop
        invariant
            session@.wf(),
            session@.rate == s0.rate,
            session@.samples == s0.samples,
            buffer@.len() == BUFFER_SIZE,
            0 <= index <= frames_touched(avail),
            index < frames_touched(avail) ==> session@.pos == s0.pos + 2 * index,
            index == frames_touched(avail) ==> session@.pos == s0.pos + avail,
            forall|k: int| index <= k < buffer@.len() ==> buffer@[k] == old(buffer)@[k],
            forall|k: int| 0 <= k < index ==> buffer@[k] == assembled(old(buffer)@, s0, avail)[k],
        decreases BUFFER_SIZE - index,
    {
        if index >= BUFFER_SIZE {
            break ;
        }
        let first = session.next_sample();
        match first {
            None => {
                break ;
            },
            Some(sample1) => {
                match session.next_sample() {
                    Some(sample2) => {
                        buffer[index] = (sample1, sample2);
                    },
                    None => {
                        let right = buffer[index].1;
                        buffer[index] = (sample1, right);
                    },
                }
                index = index + 1;
            },
        }
    }
    proof {
        assert(buffer@ =~= assembled(old(buffer)@, s0, avail));
    }
    index
}

} // verus!
