use vstd::prelude::*;

verus! {

/// Decides at which ticks a new frame is decoded and drawn, so that frames are
/// never drawn faster than the stream's native rate.
///
/// Times are nanoseconds on a monotonic clock. The pacer remembers the moment
/// of the last frame slot it granted, and, as ghost state, every slot granted
/// so far.
pub struct Pacer {
    frame_duration: u64,
    last_slot: u64,
    granted: Ghost<Seq<int>>,
}

/// Consecutive slots are at least one frame duration apart.
pub open spec fn spaced(times: Seq<int>, d: int) -> bool {
    forall|i: int| 0 <= i < times.len() - 1 ==> #[trigger] times[i + 1] - times[i] >= d
}

impl Pacer {
    /// Spacing between frames, in nanoseconds.
    pub closed spec fn spec_frame_duration(&self) -> int {
        self.frame_duration as int
    }

    /// The moment of the last slot granted (the start, before the first one).
    pub closed spec fn spec_last_slot(&self) -> int {
        self.last_slot as int
    }

    /// Every slot granted so far, in order.
    pub closed spec fn granted(&self) -> Seq<int> {
        self.granted@
    }

    /// The slots are spaced by at least one frame duration, and the last one
    /// is the remembered moment.
    pub closed spec fn wf(&self) -> bool {
        &&& spaced(self.granted@, self.frame_duration as int)
        &&& self.granted@.len() > 0 ==> self.granted@.last() == self.last_slot
    }

    /// A pacer for frames `frame_duration` nanoseconds apart, started at `now`:
    /// the first frame is due one frame duration later.
    pub fn new(frame_duration: u64, now: u64) -> (r: Pacer)
        ensures
            r.wf(),
            r.spec_frame_duration() == frame_duration,
            r.spec_last_slot() == now,
            r.granted() == Seq::<int>::empty(),
    {
        Pacer { frame_duration, last_slot: now, granted: Ghost(Seq::empty()) }
    }

    /// Whether a frame is due at `now`: at least one frame duration has passed
    /// since the last slot.
    pub fn is_due(&self, now: u64) -> (r: bool)
        ensures
            r == (now >= self.spec_last_slot() + self.spec_frame_duration()),
    {
        now >= self.last_slot && now - self.last_slot >= self.frame_duration
    }

    /// Asks for a frame slot at `now`. When a frame is due, the slot is granted
    /// and remembered; otherwise nothing changes and the tick draws nothing.
    pub fn take_slot(&mut self, now: u64) -> (r: bool)
        requires
            old(self).wf(),
        ensures
            final(self).wf(),
            r == (now >= old(self).spec_last_slot() + old(self).spec_frame_duration()),
            final(self).spec_frame_duration() == old(self).spec_frame_duration(),
            r ==> final(self).spec_last_slot() == now,
            r ==> final(self).granted() == old(self).granted().push(now as int),
            !r ==> *final(self) == *old(self),
    {
        let due = self.is_due(now);
        if due {
            let ghost before = self.granted@;
            proof {
                assert forall|i: int| 0 <= i < before.push(now as int).len() - 1 implies #[trigger] before.push(
                    now as int,
                )[i + 1] - before.push(now as int)[i] >= self.frame_duration by {
                    if i + 1 < before.len() {
                        assert(before[i + 1] - before[i] >= self.frame_duration);
                    }
                }
            }
            self.granted = Ghost(before.push(now as int));
            self.last_slot = now;
        }
        due
    }
}

/// Slots `i` and `j` are at least `j - i` frame durations apart.
proof fn lemma_slots_apart(times: Seq<int>, d: int, i: int, j: int)
    requires
        spaced(times, d),
        0 <= i <= j < times.len(),
    ensures
        times[j] - times[i] >= (j - i) * d,
    decreases j - i,
{
    if i < j {
        lemma_slots_apart(times, d, i, j - 1);
        let k = j - 1;
        assert(times[k + 1] - times[k] >= d);
        assert((j - i) * d == (j - 1 - i) * d + d) by (nonlinear_arith);
    } else {
        assert((j - i) * d == 0) by (nonlinear_arith)
            requires
                i == j,
        ;
    }
}

/// Frames are never drawn faster than the native rate, up to one frame of
/// slack: if the slots from number `i` to number `j` all fall in a window of
/// `t` nanoseconds, there are at most `t / d + 1` of them, `d` being the frame
/// duration.
pub proof fn lemma_slots_in_window(p: &Pacer, i: int, j: int, start: int, t: int)
    requires
        p.wf(),
        p.spec_frame_duration() > 0,
        0 <= i <= j < p.granted().len(),
        start <= p.granted()[i],
        p.granted()[j] <= start + t,
    ensures
        j - i + 1 <= t / p.spec_frame_duration() + 1,
{
    let d = p.spec_frame_duration();
    let times = p.granted();
    lemma_slots_apart(times, d, i, j);
    assert((j - i) * d <= t);
    assert(j - i <= t / d) by (nonlinear_arith)
        requires
            (j - i) * d <= t,
            d > 0,
            j - i >= 0,
    {
        vstd::arithmetic::div_mod::lemma_fundamental_div_mod(t, d);
        vstd::arithmetic::div_mod::lemma_mod_bound(t, d);
    }
}

} // verus!
