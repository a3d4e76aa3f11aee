//! The cap on delivered frames per second.

use vstd::prelude::*;

verus! {

/// Nanoseconds between two frames under a cap of `fps`, 0 where there is no cap.
pub open spec fn frame_interval(fps: Option<u32>) -> u64 {
    match fps {
        Some(fps) => if fps > 0 {
            (1_000_000_000int / fps as int) as u64
        } else {
            0
        },
        None => 0,
    }
}

/// Whether a frame captured at `ts` is due, where the next one is due at `next`.
pub open spec fn is_due(interval: u64, next: Option<u64>, ts: u64) -> bool {
    interval == 0 || match next {
        Some(next) => next <= ts,
        None => true,
    }
}

/// When the next frame is due once one captured at `ts` has been judged.
///
/// A late frame moves the schedule by whole intervals, unless it is more than one interval
/// late: then the schedule starts again from the frame.
pub open spec fn due_after(interval: u64, next: Option<u64>, ts: u64) -> Option<int> {
    if interval == 0 {
        match next {
            Some(next) => Some(next as int),
            None => None,
        }
    } else {
        match next {
            None => Some(ts + interval),
            Some(next) => if ts < next {
                Some(next as int)
            } else if ts > next + interval {
                Some(ts + interval)
            } else {
                Some(next + interval)
            },
        }
    }
}

/// Whether the schedule that follows a frame at `ts` stays within 64 bits.
pub open spec fn schedule_fits(interval: u64, next: Option<u64>, ts: u64) -> bool {
    &&& match due_after(interval, next, ts) {
        Some(due) => due <= u64::MAX,
        None => true,
    }
    &&& is_due(interval, next, ts) && next is Some ==> next->0 + interval <= u64::MAX
}

/// Drops frames that arrive faster than the cap, which no platform enforces reliably.
#[derive(Debug)]
pub struct FpsGate {
    interval: u64,
    next: Option<u64>,
}

impl FpsGate {
    /// Nanoseconds between two frames, 0 where every frame passes.
    pub closed spec fn interval(&self) -> u64 {
        self.interval
    }

    /// When the next frame is due, if one has passed already.
    pub closed spec fn next(&self) -> Option<u64> {
        self.next
    }

    /// Whether a frame captured at `ts` can be judged without leaving 64 bits.
    pub open spec fn fits(&self, ts: u64) -> bool {
        schedule_fits(self.interval(), self.next(), ts)
    }

    /// Whether a frame captured at `ts` is let through.
    pub open spec fn passes(&self, ts: u64) -> bool {
        is_due(self.interval(), self.next(), ts)
    }

    /// Whether `after` is this gate once it has judged a frame captured at `ts`.
    pub open spec fn judged(&self, ts: u64, after: &FpsGate) -> bool {
        &&& after.interval() == self.interval()
        &&& match due_after(self.interval(), self.next(), ts) {
            Some(due) => after.next() is Some && after.next()->0 == due,
            None => after.next() is None,
        }
    }

    /// Whether a stream gives out a frame captured at `out`, if any, for a sample, where its
    /// [`FpsGate`] is this one before and `after` afterwards.
    pub open spec fn delivers(&self, sample: Sample, out: Option<u64>, after: &FpsGate) -> bool {
        match sample {
            Sample::Video(ts) => {
                &&& self.judged(ts, after)
                &&& out == if self.passes(ts) {
                    Some(ts)
                } else {
                    None
                }
            },
            Sample::Audio(ts) => {
                &&& after.interval() == self.interval()
                &&& after.next() == self.next()
                &&& out == Some(ts)
            },
            Sample::Unusable(_) => {
                &&& after.interval() == self.interval()
                &&& after.next() == self.next()
                &&& out is None
            },
        }
    }

    /// A gate with a cap of `fps` frames per second; `None` and 0 leave the source uncapped.
    pub fn new(fps: Option<u32>) -> (gate: Self)
        ensures
            gate.interval() == frame_interval(fps),
            gate.next() is None,
    {
        let interval: u64 = match fps {
            Some(fps) => {
                if fps > 0 {
                    1_000_000_000 / fps as u64
                } else {
                    0
                }
            },
            None => 0,
        };
        FpsGate { interval, next: None }
    }

    /// Whether [`allow`](Self::allow) can judge a frame captured at `ts`.
    pub fn can_judge(&self, ts: u64) -> (fits: bool)
        ensures
            fits == self.fits(ts),
    {
        if self.interval == 0 {
            return true;
        }
        match self.next {
            None => ts <= u64::MAX - self.interval,
            Some(next) => {
                if ts < next {
                    true
                } else if next > u64::MAX - self.interval {
                    false
                } else if ts > next + self.interval {
                    ts <= u64::MAX - self.interval
                } else {
                    true
                }
            },
        }
    }

    /// Whether a frame captured at `ts` (nanoseconds) should be delivered.
    pub fn allow(&mut self, ts: u64) -> (allowed: bool)
        requires
            old(self).fits(ts),
        ensures
            allowed == old(self).passes(ts),
            old(self).judged(ts, final(self)),
            !allowed ==> *final(self) == *old(self),
    {
        if self.interval == 0 {
            return true;
        }
        let next: u64 = match self.next {
            None => {
                self.next = Some(ts + self.interval);
                return true;
            },
            Some(next) => next,
        };
        if ts < next {
            return false;
        }
        // Whole intervals, not from `ts`: a 75 Hz source under a 60 cap would emit 37.5.
        self.next = Some(
            if ts > next + self.interval {
                ts + self.interval
            } else {
                next + self.interval
            },
        );
        true
    }
}

/// The frames of `ts` that a gate in the given state lets through, in order.
pub open spec fn delivered(interval: u64, next: Option<u64>, ts: Seq<u64>) -> Seq<u64>
    decreases ts.len(),
{
    if ts.len() == 0 {
        Seq::empty()
    } else {
        let rest = ts.drop_first();
        let after = match due_after(interval, next, ts[0]) {
            Some(due) => Some(due as u64),
            None => None,
        };
        if is_due(interval, next, ts[0]) {
            seq![ts[0]] + delivered(interval, after, rest)
        } else {
            delivered(interval, after, rest)
        }
    }
}

/// Whether every timestamp leaves room for one more interval in 64 bits.
pub open spec fn room_for_interval(interval: u64, ts: Seq<u64>) -> bool {
    forall|i: int| 0 <= i < ts.len() ==> (#[trigger] ts[i]) + interval <= u64::MAX
}

/// A gate whose frames all leave room for one more interval never runs out of 64 bits.
pub proof fn law_room_is_enough(interval: u64, next: Option<u64>, ts: u64)
    requires
        ts + interval <= u64::MAX,
    ensures
        schedule_fits(interval, next, ts),
{
}

/// Without a cap every frame is delivered.
pub proof fn law_uncapped_delivers_all(next: Option<u64>, ts: Seq<u64>)
    ensures
        delivered(0, next, ts) == ts,
    decreases ts.len(),
{
    if ts.len() > 0 {
        law_uncapped_delivers_all(next, ts.drop_first());
        assert(seq![ts[0]] + ts.drop_first() =~= ts);
    }
    assert(delivered(0, next, ts) =~= ts);
}

/// The cap is the number of intervals that fit in a second, and one more would not.
pub proof fn law_interval_is_the_cap(fps: u32)
    requires
        fps > 0,
    ensures
        frame_interval(Some(fps)) * fps <= 1_000_000_000,
        (frame_interval(Some(fps)) + 1) * fps > 1_000_000_000,
{
    let i = 1_000_000_000int / fps as int;
    vstd::arithmetic::div_mod::lemma_fundamental_div_mod(1_000_000_000, fps as int);
    assert(i * fps == fps * i) by (nonlinear_arith);
    assert((i + 1) * fps == fps * i + fps) by (nonlinear_arith);
}

/// Where the next frame is due at `next`, the `k`-th frame delivered is captured no earlier than
/// `k` intervals after it.
proof fn lemma_delivered_after_due(interval: u64, next: u64, ts: Seq<u64>, k: int)
    requires
        interval > 0,
        room_for_interval(interval, ts),
        0 <= k < delivered(interval, Some(next), ts).len(),
    ensures
        delivered(interval, Some(next), ts)[k] >= next + k * interval,
    decreases ts.len(),
{
    let rest = ts.drop_first();
    assert(ts[0] + interval <= u64::MAX);
    assert forall|i: int| 0 <= i < rest.len() implies (#[trigger] rest[i]) + interval
        <= u64::MAX by {
        assert(rest[i] == ts[i + 1]);
    }
    let due = due_after(interval, Some(next), ts[0])->0;
    if is_due(interval, Some(next), ts[0]) {
        if k > 0 {
            lemma_delivered_after_due(interval, due as u64, rest, k - 1);
            assert(due + (k - 1) * interval >= next + k * interval) by (nonlinear_arith)
                requires
                    due >= next + interval,
            ;
        }
    } else {
        lemma_delivered_after_due(interval, next, rest, k);
    }
}

/// Frames are never delivered faster than the cap: counted from the first frame of a capture,
/// the `k`-th one after it comes at least `k` intervals later.
pub proof fn law_cap_from_first_frame(interval: u64, ts: Seq<u64>, k: int)
    requires
        interval > 0,
        room_for_interval(interval, ts),
        0 <= k < delivered(interval, None, ts).len(),
    ensures
        delivered(interval, None, ts)[k] >= delivered(interval, None, ts)[0] + k * interval,
{
    let rest = ts.drop_first();
    assert(ts[0] + interval <= u64::MAX);
    assert forall|i: int| 0 <= i < rest.len() implies (#[trigger] rest[i]) + interval
        <= u64::MAX by {
        assert(rest[i] == ts[i + 1]);
    }
    if k > 0 {
        lemma_delivered_after_due(interval, (ts[0] + interval) as u64, rest, k - 1);
        assert(ts[0] + interval + (k - 1) * interval == ts[0] + k * interval)
            by (nonlinear_arith);
    }
}

/// Frames are never delivered faster than the cap: between any two delivered frames lie at
/// least as many intervals as there are delivered frames strictly between them.
pub proof fn law_cap_between_frames(
    interval: u64,
    next: Option<u64>,
    ts: Seq<u64>,
    i: int,
    j: int,
)
    requires
        interval > 0,
        room_for_interval(interval, ts),
        0 <= i < j < delivered(interval, next, ts).len(),
    ensures
        delivered(interval, next, ts)[j] >= delivered(interval, next, ts)[i] + (j - i - 1)
            * interval,
    decreases ts.len(),
{
    let rest = ts.drop_first();
    assert(ts[0] + interval <= u64::MAX);
    assert forall|m: int| 0 <= m < rest.len() implies (#[trigger] rest[m]) + interval
        <= u64::MAX by {
        assert(rest[m] == ts[m + 1]);
    }
    let due = due_after(interval, next, ts[0])->0;
    if is_due(interval, next, ts[0]) {
        if i > 0 {
            law_cap_between_frames(interval, Some(due as u64), rest, i - 1, j - 1);
        } else {
            lemma_delivered_after_due(interval, due as u64, rest, j - 1);
            assert(due >= ts[0]);
        }
    } else {
        law_cap_between_frames(interval, next, rest, i, j);
    }
}

/// Whether consecutive timestamps are at least one interval apart.
pub open spec fn spaced(interval: u64, ts: Seq<u64>) -> bool {
    forall|i: int| 0 < i < ts.len() ==> ts[i - 1] + interval <= #[trigger] ts[i]
}

/// A source that stays within the cap loses no frame.
pub proof fn law_slow_source_loses_nothing(interval: u64, ts: Seq<u64>)
    requires
        room_for_interval(interval, ts),
        spaced(interval, ts),
    ensures
        delivered(interval, None, ts) == ts,
{
    lemma_spaced_all_pass(interval, None, ts);
}

proof fn lemma_spaced_all_pass(interval: u64, next: Option<u64>, ts: Seq<u64>)
    requires
        room_for_interval(interval, ts),
        spaced(interval, ts),
        ts.len() > 0 && next is Some ==> next->0 <= ts[0],
    ensures
        delivered(interval, next, ts) == ts,
    decreases ts.len(),
{
    if interval == 0 {
        law_uncapped_delivers_all(next, ts);
    } else if ts.len() > 0 {
        let rest = ts.drop_first();
        assert(ts[0] + interval <= u64::MAX);
        assert forall|i: int| 0 <= i < rest.len() implies (#[trigger] rest[i]) + interval
            <= u64::MAX by {
            assert(rest[i] == ts[i + 1]);
        }
        assert forall|i: int| 0 < i < rest.len() implies rest[i - 1] + interval
            <= #[trigger] rest[i] by {
            assert(rest[i] == ts[i + 1]);
            assert(rest[i - 1] == ts[i]);
        }
        if rest.len() > 0 {
            assert(rest[0] == ts[1]);
        }
        let due = due_after(interval, next, ts[0])->0;
        lemma_spaced_all_pass(interval, Some(due as u64), rest);
        assert(seq![ts[0]] + rest =~= ts);
    }
}

/// Whether timestamps never go back, and no two in a row are more than one interval apart.
pub open spec fn dense(interval: u64, ts: Seq<u64>) -> bool {
    forall|i: int|
        0 < i < ts.len() ==> ts[i - 1] <= #[trigger] ts[i] && ts[i] <= ts[i - 1] + interval
}

/// A source at least as fast as the cap is delivered at the cap, not below it: the `k`-th frame
/// after the first is less than one interval later than the `k`-th tick of the cap.
pub proof fn law_fast_source_keeps_the_cap(interval: u64, ts: Seq<u64>, k: int)
    requires
        interval > 0,
        room_for_interval(interval, ts),
        dense(interval, ts),
        ts.len() > 0,
        0 <= k,
        ts.last() >= ts[0] + k * interval,
    ensures
        k < delivered(interval, None, ts).len(),
        ts[0] + k * interval <= delivered(interval, None, ts)[k] < ts[0] + (k + 1) * interval,
{
    assert(ts[0] + interval <= u64::MAX);
    let rest = ts.drop_first();
    let d = delivered(interval, Some((ts[0] + interval) as u64), rest);
    assert(delivered(interval, None, ts) == seq![ts[0]] + d);
    if k == 0 {
        assert((0 + 1) * interval == interval) by (nonlinear_arith);
        assert(0 * interval == 0) by (nonlinear_arith);
    } else {
        assert(ts.len() > 1) by {
            assert(k * interval >= interval) by (nonlinear_arith)
                requires
                    k >= 1,
                    interval > 0,
            ;
        }
        assert(ts[0] + k * interval == (ts[0] + interval) + (k - 1) * interval)
            by (nonlinear_arith);
        assert(ts[0] + (k + 1) * interval == (ts[0] + interval) + k * interval)
            by (nonlinear_arith);
        lemma_dense_on_grid(interval, ts[0], (ts[0] + interval) as u64, ts, 1, k - 1);
        assert(ts.skip(1) =~= rest);
        assert((seq![ts[0]] + d)[k] == d[k - 1]);
    }
}

/// Where the last frame judged came before `next`, the frames from position `at` on are
/// delivered on the ticks that start at `next`.
proof fn lemma_dense_on_grid(interval: u64, last: u64, next: u64, ts: Seq<u64>, at: int, k: int)
    requires
        interval > 0,
        room_for_interval(interval, ts),
        dense(interval, ts),
        0 < at <= ts.len(),
        last == ts[at - 1],
        last < next,
        0 <= k,
        ts.last() >= next + k * interval,
    ensures
        k < delivered(interval, Some(next), ts.skip(at)).len(),
        next + k * interval <= delivered(interval, Some(next), ts.skip(at))[k] < next + (k + 1)
            * interval,
    decreases ts.len() - at,
{
    assert(k * interval >= 0) by (nonlinear_arith)
        requires
            k >= 0,
    ;
    if at == ts.len() {
        assert(false);
    }
    let tail = ts.skip(at);
    assert(tail[0] == ts[at]);
    assert(tail.drop_first() =~= ts.skip(at + 1));
    assert(ts[at] <= ts[at - 1] + interval);
    assert(ts[at] + interval <= u64::MAX);
    if ts[at] < next {
        lemma_dense_on_grid(interval, ts[at], next, ts, at + 1, k);
    } else {
        assert(ts[at] < next + interval);
        let due = (next + interval) as u64;
        let d = delivered(interval, Some(due), ts.skip(at + 1));
        assert(delivered(interval, Some(next), tail) == seq![ts[at]] + d);
        if k == 0 {
            assert((0 + 1) * interval == interval) by (nonlinear_arith);
            assert(0 * interval == 0) by (nonlinear_arith);
        } else {
            assert(next + k * interval == due + (k - 1) * interval) by (nonlinear_arith)
                requires
                    due == next + interval,
            ;
            assert(next + (k + 1) * interval == due + k * interval) by (nonlinear_arith)
                requires
                    due == next + interval,
            ;
            lemma_dense_on_grid(interval, ts[at], due, ts, at + 1, k - 1);
            assert((seq![ts[at]] + d)[k] == d[k - 1]);
        }
    }
}

/// Whether timestamps are `least` or later, and never go back.
pub open spec fn in_order(least: u64, ts: Seq<u64>) -> bool {
    &&& forall|i: int| 0 <= i < ts.len() ==> least <= #[trigger] ts[i]
    &&& forall|i: int, j: int| 0 <= i <= j < ts.len() ==> ts[i] <= ts[j]
}

/// A sample that a source hands over, with the time it was captured at.
pub ghost enum Sample {
    /// A picture.
    Video(u64),
    /// Sound.
    Audio(u64),
    /// Nothing that could be delivered.
    Unusable(u64),
}

impl Sample {
    /// When the sample was captured.
    pub open spec fn ts(self) -> u64 {
        match self {
            Sample::Video(ts) => ts,
            Sample::Audio(ts) => ts,
            Sample::Unusable(ts) => ts,
        }
    }
}

/// When samples were captured.
pub open spec fn times(samples: Seq<Sample>) -> Seq<u64> {
    Seq::new(samples.len(), |i: int| samples[i].ts())
}

/// When the pictures among samples were captured.
pub open spec fn video_times(samples: Seq<Sample>) -> Seq<u64>
    decreases samples.len(),
{
    if samples.len() == 0 {
        Seq::empty()
    } else {
        let rest = video_times(samples.drop_first());
        match samples[0] {
            Sample::Video(ts) => seq![ts] + rest,
            _ => rest,
        }
    }
}

/// What goes out of the samples of a source with pictures and sound, in order: all sound, and the
/// pictures that a gate in the given state lets through.
pub open spec fn delivered_of_both(interval: u64, next: Option<u64>, samples: Seq<Sample>) -> Seq<
    Sample,
>
    decreases samples.len(),
{
    if samples.len() == 0 {
        Seq::empty()
    } else {
        let rest = samples.drop_first();
        match samples[0] {
            Sample::Unusable(_) => delivered_of_both(interval, next, rest),
            Sample::Audio(_) => seq![samples[0]] + delivered_of_both(interval, next, rest),
            Sample::Video(ts) => {
                let after = match due_after(interval, next, ts) {
                    Some(due) => Some(due as u64),
                    None => None,
                };
                if is_due(interval, next, ts) {
                    seq![samples[0]] + delivered_of_both(interval, after, rest)
                } else {
                    delivered_of_both(interval, after, rest)
                }
            },
        }
    }
}

/// A stream that delivers its samples one after the other delivers what
/// [`delivered_of_both`] says of all of them.
pub proof fn law_delivered_one_by_one(
    gate: FpsGate,
    sample: Sample,
    out: Option<u64>,
    after: FpsGate,
    rest: Seq<Sample>,
)
    requires
        gate.delivers(sample, out, &after),
    ensures
        delivered_of_both(gate.interval(), gate.next(), seq![sample] + rest) == if out is Some {
            seq![sample] + delivered_of_both(after.interval(), after.next(), rest)
        } else {
            delivered_of_both(after.interval(), after.next(), rest)
        },
        out is Some ==> out->0 == sample.ts(),
{
    assert((seq![sample] + rest).drop_first() =~= rest);
}

/// Timestamps are set and never go back: where that holds of the samples that a stream delivers one
/// after the other, pictures and sound on one clock, a frame is captured no earlier than any frame
/// given out before it.
pub proof fn law_run_in_order(
    gates: Seq<FpsGate>,
    samples: Seq<Sample>,
    outs: Seq<Option<u64>>,
    least: u64,
    i: int,
    j: int,
)
    requires
        gates.len() == samples.len() + 1,
        outs.len() == samples.len(),
        forall|k: int|
            0 <= k < outs.len() ==> gates[k].delivers(
                samples[k],
                #[trigger] outs[k],
                &gates[k + 1],
            ),
        in_order(least, times(samples)),
        0 <= i <= j < outs.len(),
        outs[i] is Some,
        outs[j] is Some,
    ensures
        least <= outs[i]->0 <= outs[j]->0,
{
    assert(times(samples)[i] == outs[i]->0);
    assert(times(samples)[j] == outs[j]->0);
}

/// Sound does not count against the cap: the pictures that go out beside it are those that go out
/// without it.
pub proof fn law_sound_leaves_the_cap_alone(
    interval: u64,
    next: Option<u64>,
    samples: Seq<Sample>,
)
    ensures
        video_times(delivered_of_both(interval, next, samples)) == delivered(
            interval,
            next,
            video_times(samples),
        ),
    decreases samples.len(),
{
    if samples.len() > 0 {
        let rest = samples.drop_first();
        match samples[0] {
            Sample::Unusable(_) => {
                law_sound_leaves_the_cap_alone(interval, next, rest);
            },
            Sample::Audio(_) => {
                law_sound_leaves_the_cap_alone(interval, next, rest);
                let out = delivered_of_both(interval, next, rest);
                assert((seq![samples[0]] + out).drop_first() =~= out);
            },
            Sample::Video(ts) => {
                let after = match due_after(interval, next, ts) {
                    Some(due) => Some(due as u64),
                    None => None,
                };
                law_sound_leaves_the_cap_alone(interval, after, rest);
                let out = delivered_of_both(interval, after, rest);
                assert((seq![samples[0]] + out).drop_first() =~= out);
                let all = seq![ts] + video_times(rest);
                assert(all.drop_first() =~= video_times(rest));
            },
        }
    }
}

/// Timestamps are set and never go back: where that holds of what a source hands over, pictures
/// and sound on one clock, it holds of what goes out, whatever the cap.
pub proof fn law_both_streams_in_order(
    interval: u64,
    next: Option<u64>,
    samples: Seq<Sample>,
    least: u64,
)
    requires
        in_order(least, times(samples)),
    ensures
        in_order(least, times(delivered_of_both(interval, next, samples))),
    decreases samples.len(),
{
    if samples.len() > 0 {
        let rest = samples.drop_first();
        let first = samples[0].ts();
        assert(times(samples)[0] == first);
        assert forall|i: int| 0 <= i < rest.len() implies first <= #[trigger] times(rest)[i] by {
            assert(times(samples)[i + 1] == times(rest)[i]);
        }
        assert forall|i: int, j: int| 0 <= i <= j < rest.len() implies times(rest)[i] <= times(
            rest,
        )[j] by {
            assert(times(samples)[i + 1] == times(rest)[i]);
            assert(times(samples)[j + 1] == times(rest)[j]);
        }
        let after = match samples[0] {
            Sample::Audio(_) | Sample::Unusable(_) => next,
            Sample::Video(ts) => match due_after(interval, next, ts) {
                Some(due) => Some(due as u64),
                None => None,
            },
        };
        law_both_streams_in_order(interval, after, rest, first);
        let out = delivered_of_both(interval, after, rest);
        let with_first = seq![samples[0]] + out;
        assert forall|i: int| 0 <= i < with_first.len() implies first <= #[trigger] times(
            with_first,
        )[i] by {
            if i > 0 {
                assert(times(with_first)[i] == times(out)[i - 1]);
            }
        }
        assert forall|i: int, j: int| 0 <= i <= j < with_first.len() implies times(with_first)[i]
            <= times(with_first)[j] by {
            if i > 0 {
                assert(times(with_first)[i] == times(out)[i - 1]);
                assert(times(with_first)[j] == times(out)[j - 1]);
            } else {
                assert(times(with_first)[j] >= first);
            }
        }
    }
}

/// Timestamps are set and never go back: where that holds of what a source hands over, it holds of
/// what the cap lets through.
pub proof fn law_delivered_in_order(interval: u64, next: Option<u64>, ts: Seq<u64>, least: u64)
    requires
        in_order(least, ts),
    ensures
        in_order(least, delivered(interval, next, ts)),
{
    let samples = Seq::new(ts.len(), |i: int| Sample::Video(ts[i]));
    assert(times(samples) =~= ts);
    law_both_streams_in_order(interval, next, samples, least);
    lemma_delivered_alone(interval, next, ts);
}

proof fn lemma_delivered_alone(interval: u64, next: Option<u64>, ts: Seq<u64>)
    ensures
        times(
            delivered_of_both(
                interval,
                next,
                Seq::new(ts.len(), |i: int| Sample::Video(ts[i])),
            ),
        ) == delivered(interval, next, ts),
    decreases ts.len(),
{
    let samples = Seq::new(ts.len(), |i: int| Sample::Video(ts[i]));
    if ts.len() > 0 {
        let rest = ts.drop_first();
        let after = match due_after(interval, next, ts[0]) {
            Some(due) => Some(due as u64),
            None => None,
        };
        lemma_delivered_alone(interval, after, rest);
        assert(samples.drop_first() =~= Seq::new(rest.len(), |i: int| Sample::Video(rest[i])));
    }
    assert(times(delivered_of_both(interval, next, samples)) =~= delivered(interval, next, ts));
}

/// A cap in frames per second is a whole number of nanoseconds between two frames: as many as fit
/// that often into a second. Without a cap there is no time between frames, and no frame has passed
/// yet.
pub proof fn law_gate_of_a_cap(fps: Option<u32>, gate: FpsGate)
    requires
        call_ensures(FpsGate::new, (fps,), gate),
    ensures
        fps is None || fps->0 == 0 ==> gate.interval() == 0,
        fps is Some && fps->0 > 0 ==> {
            &&& gate.interval() * fps->0 <= 1_000_000_000
            &&& (gate.interval() + 1) * fps->0 > 1_000_000_000
        },
        gate.next() is None,
{
    if fps is Some && fps->0 > 0 {
        law_interval_is_the_cap(fps->0);
    }
}

/// A frame is let through where there is no cap, where it is the first, and where the time for the
/// next one has come. After it the next one is due one interval after the last was, or, where the
/// frame came more than an interval late, one interval after the frame.
pub proof fn law_frames_are_let_through(gate: &mut FpsGate, ts: u64, allowed: bool)
    requires
        call_ensures(FpsGate::allow, (gate, ts), allowed),
    ensures
        ({
            let interval = old(gate).interval();
            let next = old(gate).next();
            &&& allowed <==> interval == 0 || next is None || ts >= next->0
            &&& final(gate).interval() == interval
            &&& interval == 0 || !allowed ==> final(gate).next() == next
            &&& interval > 0 && allowed ==> final(gate).next() is Some
            &&& interval > 0 && next is None ==> final(gate).next()->0 == ts + interval
            &&& interval > 0 && allowed && next is Some && ts <= next->0 + interval ==> final(gate).next()->0 == next->0 + interval
            &&& interval > 0 && allowed && next is Some && ts > next->0 + interval ==> final(gate).next()->0 == ts + interval
        }),
{
}

/// Two frames in a row: under a cap the second is let through only an interval or more after the
/// first of a capture, and certainly then.
pub proof fn law_second_frame(
    fps: Option<u32>,
    made: FpsGate,
    first: &mut FpsGate,
    a: u64,
    one: bool,
    second: &mut FpsGate,
    b: u64,
    two: bool,
)
    requires
        call_ensures(FpsGate::new, (fps,), made),
        *first == made,
        call_ensures(FpsGate::allow, (first, a), one),
        *second == *final(first),
        call_ensures(FpsGate::allow, (second, b), two),
    ensures
        one,
        fps is None || fps->0 == 0 ==> two,
        fps is Some && 0 < fps->0 <= 1_000_000_000 ==> (two <==> b >= a + 1_000_000_000int / (
        fps->0 as int)),
{
    if fps is Some && 0 < fps->0 <= 1_000_000_000 {
        let f = fps->0 as int;
        assert(1 <= 1_000_000_000int / f <= 1_000_000_000) by (nonlinear_arith)
            requires
                0 < f <= 1_000_000_000,
        ;
    }
}

/// A frame can be judged wherever the time of the next one fits into 64 bits.
pub proof fn law_frames_can_be_judged(gate: &FpsGate, ts: u64, can: bool)
    requires
        call_ensures(FpsGate::can_judge, (gate, ts), can),
    ensures
        gate.interval() == 0 ==> can,
        gate.interval() > 0 && gate.next() is None ==> (can <==> ts + gate.interval() <= u64::MAX),
        gate.interval() > 0 && gate.next() is Some && ts < gate.next()->0 ==> can,
        gate.interval() > 0 && gate.next() is Some && ts >= gate.next()->0 ==> (can
            <==> gate.next()->0 + gate.interval() <= u64::MAX && (ts > gate.next()->0
            + gate.interval() ==> ts + gate.interval() <= u64::MAX)),
{
}

} // verus!
