use vstd::prelude::*;

use crate::error::RenderError;
use crate::stream::StreamInfo;

verus! {

/// What the decoder reported for one read.
#[derive(Clone, Copy, Debug, PartialEq, Eq)]
pub enum ReadOutcome {
    /// A decoded sample came back.
    Sample,
    /// The stream has no more samples.
    EndOfStream,
    /// The read failed.
    Failed,
}

/// What the frame source does with one read.
#[derive(Clone, Copy, Debug, PartialEq, Eq)]
pub enum PullAction {
    /// Hand the sample on to be drawn.
    Present,
    /// Reopen the stream at its start and read again, so that playback loops
    /// without the caller seeing the end.
    ReopenAndRead,
    /// Keep the frame on screen and try again at the next tick.
    SkipTick,
}

/// The looping policy of the frame source.
pub open spec fn action_for(outcome: ReadOutcome) -> PullAction {
    match outcome {
        ReadOutcome::Sample => PullAction::Present,
        ReadOutcome::EndOfStream => PullAction::ReopenAndRead,
        ReadOutcome::Failed => PullAction::SkipTick,
    }
}

/// Decides what to do with one read from the decoder: present a sample,
/// reopen at the end of the stream, skip the tick on a failed read.
pub fn pull_action(outcome: ReadOutcome) -> (r: PullAction)
    ensures
        r == action_for(outcome),
{
    match outcome {
        ReadOutcome::Sample => PullAction::Present,
        ReadOutcome::EndOfStream => PullAction::ReopenAndRead,
        ReadOutcome::Failed => PullAction::SkipTick,
    }
}

/// Position of the read cursor of a stream of `n` samples after `k` pulls
/// from a fresh open: reaching the end reopens the stream before the next read.
pub open spec fn cursor_after(n: nat, k: nat) -> nat {
    if k == 0 {
        0
    } else {
        ((k - 1) as nat % n) + 1
    }
}

/// The bytes of a sample, if it decoded.
pub open spec fn sample_view(o: Option<Vec<u8>>) -> Option<Seq<u8>> {
    match o {
        Some(v) => Some(v@),
        None => None,
    }
}

/// A decoded stream held in memory, read one sample at a time and looped.
/// A sample that failed to decode is held as `None`.
pub struct Clip {
    info: StreamInfo,
    samples: Vec<Option<Vec<u8>>>,
    cursor: usize,
    pulled: Ghost<nat>,
}

impl Clip {
    /// The stream description.
    pub closed spec fn spec_info(&self) -> StreamInfo {
        self.info
    }

    /// The samples of one pass through the stream, as bytes.
    pub closed spec fn spec_samples(&self) -> Seq<Option<Seq<u8>>> {
        self.samples@.map_values(|o: Option<Vec<u8>>| sample_view(o))
    }

    /// The sample that pull number `k` (from zero) yields.
    pub open spec fn sample_at(&self, k: nat) -> Option<Seq<u8>> {
        self.spec_samples()[(k % self.spec_samples().len()) as int]
    }

    /// How many frames were pulled since the clip was opened.
    pub closed spec fn spec_pulled(&self) -> nat {
        self.pulled@
    }

    /// The read cursor: the index of the next sample of the current pass.
    pub closed spec fn spec_cursor(&self) -> nat {
        self.cursor as nat
    }

    /// A clip holds at least one sample and its cursor follows the number of
    /// pulls.
    pub closed spec fn wf(&self) -> bool {
        &&& self.samples@.len() > 0
        &&& self.cursor <= self.samples@.len()
        &&& self.cursor as nat == cursor_after(self.samples@.len(), self.pulled@)
    }

    /// Opens a clip; a stream without samples cannot be opened.
    pub fn open(info: StreamInfo, samples: Vec<Option<Vec<u8>>>) -> (r: Result<Clip, RenderError>)
        ensures
            samples@.len() == 0 <==> r == Err::<Clip, RenderError>(RenderError::OpenFailed),
            r matches Ok(c) ==> {
                &&& c.wf()
                &&& c.spec_info() == info
                &&& c.spec_samples() == samples@.map_values(|o: Option<Vec<u8>>| sample_view(o))
                &&& c.spec_pulled() == 0
            },
    {
        if samples.len() == 0 {
            Err(RenderError::OpenFailed)
        } else {
            Ok(Clip { info, samples, cursor: 0, pulled: Ghost(0) })
        }
    }

    /// The stream description, which no pull changes.
    pub fn info(&self) -> (r: StreamInfo)
        ensures
            r == self.spec_info(),
    {
        self.info
    }

    /// Number of samples in one pass.
    pub fn frame_count(&self) -> (r: usize)
        ensures
            r == self.spec_samples().len(),
    {
        self.samples.len()
    }

    /// One raw read: the sample under the cursor, or the end of the stream.
    fn read(&mut self) -> (r: (ReadOutcome, Option<Vec<u8>>))
        requires
            old(self).cursor <= old(self).samples@.len(),
        ensures
            old(self).cursor < old(self).samples@.len() ==> {
                &&& final(self).cursor == old(self).cursor + 1
                &&& sample_view(r.1) == sample_view(old(self).samples@[old(self).cursor as int])
                &&& r.0 == if r.1 is Some {
                    ReadOutcome::Sample
                } else {
                    ReadOutcome::Failed
                }
            },
            old(self).cursor == old(self).samples@.len() ==> {
                &&& final(self).cursor == old(self).cursor
                &&& r == (ReadOutcome::EndOfStream, None::<Vec<u8>>)
            },
            final(self).samples == old(self).samples,
            final(self).info == old(self).info,
            final(self).pulled == old(self).pulled,
    {
        if self.cursor < self.samples.len() {
            let at = self.cursor;
            self.cursor = at + 1;
            match &self.samples[at] {
                Some(frame) => {
                    let copy = frame.clone();
                    assert(copy@ =~= frame@);
                    (ReadOutcome::Sample, Some(copy))
                },
                None => (ReadOutcome::Failed, None),
            }
        } else {
            (ReadOutcome::EndOfStream, None)
        }
    }

    /// Pulls the next frame. At the end of a pass the stream is reopened and
    /// read again, so the caller sees an endless sequence: pull number `k`
    /// (from zero) yields sample `k mod n`. A sample that failed to decode
    /// gives a transient error, and the next pull goes on after it.
    pub fn next_frame(&mut self) -> (r: Result<Vec<u8>, RenderError>)
        requires
            old(self).wf(),
        ensures
            final(self).wf(),
            final(self).spec_info() == old(self).spec_info(),
            final(self).spec_samples() == old(self).spec_samples(),
            final(self).spec_pulled() == old(self).spec_pulled() + 1,
            match old(self).sample_at(old(self).spec_pulled()) {
                Some(frame) => r matches Ok(v) && v@ == frame,
                None => r == Err::<Vec<u8>, RenderError>(RenderError::TransientDecodeError),
            },
    {
        let ghost n = self.samples@.len();
        let ghost k = self.pulled@;
        proof {
            lemma_cursor_step(n, k);
        }
        let (mut outcome, mut sample) = self.read();
        match pull_action(outcome) {
            PullAction::ReopenAndRead => {
                self.cursor = 0;
                let (o, s) = self.read();
                outcome = o;
                sample = s;
            },
            _ => {},
        }
        self.pulled = Ghost(k + 1);
        match sample {
            Some(frame) => Ok(frame),
            None => Err(RenderError::TransientDecodeError),
        }
    }
}

/// The next read after `k` pulls lands on sample `k mod n`, and leaves the
/// cursor where `k + 1` pulls put it.
proof fn lemma_cursor_step(n: nat, k: nat)
    requires
        n > 0,
    ensures
        cursor_after(n, k) < n ==> cursor_after(n, k) == k % n,
        cursor_after(n, k) == n ==> k % n == 0,
        cursor_after(n, k) <= n,
        cursor_after(n, k + 1) == (k % n) + 1,
{
    if k > 0 {
        lemma_mod_succ((k - 1) as nat, n);
    }
}

/// Going one step further wraps the remainder to zero at `n`.
proof fn lemma_mod_succ(j: nat, n: nat)
    requires
        n > 0,
    ensures
        (j % n) + 1 < n ==> (j + 1) % n == (j % n) + 1,
        (j % n) + 1 == n ==> (j + 1) % n == 0,
        j % n < n,
{
    let q = j / n;
    let m = j % n;
    vstd::arithmetic::div_mod::lemma_fundamental_div_mod(j as int, n as int);
    assert(j == q * n + m) by (nonlinear_arith)
        requires
            j == n * q + m,
    ;
    if m + 1 < n {
        vstd::arithmetic::div_mod::lemma_fundamental_div_mod_converse(
            (j + 1) as int,
            n as int,
            q as int,
            (m + 1) as int,
        );
    } else {
        assert(j + 1 == (q + 1) * n) by (nonlinear_arith)
            requires
                j == q * n + m,
                m + 1 == n,
        ;
        vstd::arithmetic::div_mod::lemma_fundamental_div_mod_converse(
            (j + 1) as int,
            n as int,
            (q + 1) as int,
            0,
        );
    }
}

/// Playback is endless: once as many frames were pulled as the stream holds,
/// the pulls start over with the same samples, so pull `k + n` yields what pull
/// `k` did, and pull `n` yields the first sample.
pub proof fn lemma_playback_loops(clip: &Clip, k: nat)
    requires
        clip.wf(),
    ensures
        clip.sample_at(k + clip.spec_samples().len()) == clip.sample_at(k),
        clip.sample_at(clip.spec_samples().len()) == clip.spec_samples()[0],
{
    let n = clip.spec_samples().len();
    assert(n > 0) by {
        reveal(Clip::wf);
    }
    vstd::arithmetic::div_mod::lemma_mod_add_multiples_vanish(k as int, n as int);
    vstd::arithmetic::div_mod::lemma_mod_self_0(n as int);
}

} // verus!
