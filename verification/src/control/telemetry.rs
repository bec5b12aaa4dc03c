use std::collections::VecDeque;
use vstd::prelude::*;

use crate::fixed::Fixed;

verus! {

/// The sliding window of samples that the control loop writes and the
/// observer reads: four series of `[time, value]` pairs that move together.
pub struct PlotPnts {
    pub pos: VecDeque<[Fixed; 2]>,
    pub vel: VecDeque<[Fixed; 2]>,
    pub voltage: VecDeque<[Fixed; 2]>,
    pub trq: VecDeque<[Fixed; 2]>,
}

/// What a [`PlotPnts`] holds, oldest sample first.
pub struct PlotView {
    pub pos: Seq<[Fixed; 2]>,
    pub vel: Seq<[Fixed; 2]>,
    pub voltage: Seq<[Fixed; 2]>,
    pub trq: Seq<[Fixed; 2]>,
}

/// What one tick records: the time of the tick and the four values.
pub struct Point {
    pub time: Fixed,
    pub position: Fixed,
    pub velocity: Fixed,
    pub voltage: Fixed,
    pub torque: Fixed,
}

/// One series after a sample came in: where `evict` is set, the oldest
/// sample, if there is one, left first.
pub open spec fn spec_slide(series: Seq<[Fixed; 2]>, evict: bool, sample: [Fixed; 2]) -> Seq<
    [Fixed; 2],
> {
    if evict && series.len() > 0 {
        series.subrange(1, series.len() as int).push(sample)
    } else {
        series.push(sample)
    }
}

/// One series after each sample of `run` came in, in order. A sample whose
/// time is past `duration` makes the oldest one leave.
pub open spec fn spec_slide_all(
    series: Seq<[Fixed; 2]>,
    duration: Fixed,
    run: Seq<[Fixed; 2]>,
) -> Seq<[Fixed; 2]>
    decreases run.len(),
{
    if run.len() == 0 {
        series
    } else {
        spec_slide(
            spec_slide_all(series, duration, run.drop_last()),
            run.last()[0].gt(duration),
            run.last(),
        )
    }
}

/// The times of the samples of a series, oldest first.
pub open spec fn spec_times(series: Seq<[Fixed; 2]>) -> Seq<Fixed> {
    Seq::new(series.len(), |i: int| series[i][0])
}

/// The number of samples that a window holds at most in steady state, when
/// ticks are `spacing` apart: as many as fit into `duration`, and one at
/// least.
pub open spec fn spec_capacity(duration: Fixed, spacing: Fixed) -> int
    recommends
        spacing@ > 0,
{
    if duration@ / spacing@ >= 1 {
        duration@ / spacing@
    } else {
        1
    }
}

impl Point {
    pub open spec fn position_sample(self) -> [Fixed; 2] {
        [self.time, self.position]
    }

    pub open spec fn velocity_sample(self) -> [Fixed; 2] {
        [self.time, self.velocity]
    }

    pub open spec fn voltage_sample(self) -> [Fixed; 2] {
        [self.time, self.voltage]
    }

    pub open spec fn torque_sample(self) -> [Fixed; 2] {
        [self.time, self.torque]
    }
}

impl PlotView {
    pub open spec fn spec_empty() -> PlotView {
        PlotView { pos: Seq::empty(), vel: Seq::empty(), voltage: Seq::empty(), trq: Seq::empty() }
    }

    /// Whether the four series move together: they are of one length, and
    /// samples at the same place bear the same time.
    pub open spec fn aligned(self) -> bool {
        &&& spec_times(self.vel) == spec_times(self.pos)
        &&& spec_times(self.voltage) == spec_times(self.pos)
        &&& spec_times(self.trq) == spec_times(self.pos)
    }

    /// The window after the samples of one tick came in. Once `time` is past
    /// `duration`, the oldest sample of each series leaves first.
    pub open spec fn spec_record(
        self,
        time: Fixed,
        duration: Fixed,
        position: Fixed,
        velocity: Fixed,
        voltage: Fixed,
        torque: Fixed,
    ) -> PlotView {
        let evict = time.gt(duration);
        PlotView {
            pos: spec_slide(self.pos, evict, [time, position]),
            vel: spec_slide(self.vel, evict, [time, velocity]),
            voltage: spec_slide(self.voltage, evict, [time, voltage]),
            trq: spec_slide(self.trq, evict, [time, torque]),
        }
    }

    /// The window after each tick of `run` was recorded, in order.
    pub open spec fn spec_record_all(self, duration: Fixed, run: Seq<Point>) -> PlotView
        decreases run.len(),
    {
        if run.len() == 0 {
            self
        } else {
            self.spec_record_all(duration, run.drop_last()).spec_record(
                run.last().time,
                duration,
                run.last().position,
                run.last().velocity,
                run.last().voltage,
                run.last().torque,
            )
        }
    }
}

impl View for PlotPnts {
    type V = PlotView;

    open spec fn view(&self) -> PlotView {
        PlotView { pos: self.pos@, vel: self.vel@, voltage: self.voltage@, trq: self.trq@ }
    }
}

fn slide(series: &mut VecDeque<[Fixed; 2]>, evict: bool, sample: [Fixed; 2])
    ensures
        final(series)@ == spec_slide(old(series)@, evict, sample),
{
    if evict {
        let _ = series.pop_front();
    }
    series.push_back(sample);
}

fn to_vec(series: &VecDeque<[Fixed; 2]>) -> (v: Vec<[Fixed; 2]>)
    ensures
        v@ == series@,
{
    let n = series.len();
    let mut v: Vec<[Fixed; 2]> = Vec::new();
    let mut i: usize = 0;
    while i < n
        invariant
            n == series@.len(),
            i <= n,
            v@ == series@.subrange(0, i as int),
        decreases n - i,
    {
        v.push(series[i]);
        i += 1;
    }
    v
}

impl PlotPnts {
    /// The position samples, oldest first.
    pub fn clone_pos_as_vec(&self) -> (v: Vec<[Fixed; 2]>)
        ensures
            v@ == self@.pos,
    {
        to_vec(&self.pos)
    }

    /// The speed samples, oldest first.
    pub fn clone_vel_as_vec(&self) -> (v: Vec<[Fixed; 2]>)
        ensures
            v@ == self@.vel,
    {
        to_vec(&self.vel)
    }

    /// The torque samples, oldest first.
    pub fn clone_trq_as_vec(&self) -> (v: Vec<[Fixed; 2]>)
        ensures
            v@ == self@.trq,
    {
        to_vec(&self.trq)
    }

    /// The voltage samples, oldest first.
    pub fn clone_voltage_as_vec(&self) -> (v: Vec<[Fixed; 2]>)
        ensures
            v@ == self@.voltage,
    {
        to_vec(&self.voltage)
    }

    /// Empties all four series.
    pub fn reset(&mut self)
        ensures
            final(self)@ == PlotView::spec_empty(),
    {
        self.pos = VecDeque::new();
        self.vel = VecDeque::new();
        self.trq = VecDeque::new();
        self.voltage = VecDeque::new();
    }

    /// Takes in the samples of one tick, each paired with `time`. Once
    /// `time` is past `duration`, the oldest sample of each series is
    /// dropped before the new one is appended, so the window slides.
    pub fn record(
        &mut self,
        time: Fixed,
        duration: Fixed,
        position: Fixed,
        velocity: Fixed,
        voltage: Fixed,
        torque: Fixed,
    )
        ensures
            final(self)@ == old(self)@.spec_record(
                time,
                duration,
                position,
                velocity,
                voltage,
                torque,
            ),
            old(self)@.aligned() ==> final(self)@.aligned(),
    {
        proof {
            if self@.aligned() {
                lemma_record_keeps_aligned(
                    self@,
                    duration,
                    Point { time, position, velocity, voltage, torque },
                );
            }
        }
        let evict = time.gt(duration);
        slide(&mut self.pos, evict, [time, position]);
        slide(&mut self.vel, evict, [time, velocity]);
        slide(&mut self.voltage, evict, [time, voltage]);
        slide(&mut self.trq, evict, [time, torque]);
    }
}

impl Default for PlotPnts {
    fn default() -> (p: Self)
        ensures
            p@ == PlotView::spec_empty(),
    {
        PlotPnts {
            pos: VecDeque::new(),
            vel: VecDeque::new(),
            voltage: VecDeque::new(),
            trq: VecDeque::new(),
        }
    }
}

/// A sample that comes in past the duration does not make a series that
/// holds anything longer; any other sample makes it longer by one. Either
/// way the sample is the newest of the series.
pub proof fn lemma_slide_len(series: Seq<[Fixed; 2]>, evict: bool, sample: [Fixed; 2])
    ensures
        spec_slide(series, evict, sample).len() == (if evict && series.len() > 0 {
            series.len()
        } else {
            series.len() + 1
        }),
        spec_slide(series, evict, sample).last() == sample,
{
}

/// The times of a series slide as the series does.
pub proof fn lemma_slide_times(series: Seq<[Fixed; 2]>, evict: bool, time: Fixed, value: Fixed)
    ensures
        spec_times(spec_slide(series, evict, [time, value])) == (if evict && series.len() > 0 {
            spec_times(series).subrange(1, series.len() as int).push(time)
        } else {
            spec_times(series).push(time)
        }),
{
    let sample = [time, value];
    assert(sample[0] == time);
    let after = spec_slide(series, evict, sample);
    let expected = if evict && series.len() > 0 {
        spec_times(series).subrange(1, series.len() as int).push(time)
    } else {
        spec_times(series).push(time)
    };
    assert(spec_times(after) =~= expected);
}

/// Series that move together still do after a tick was recorded.
pub proof fn lemma_record_keeps_aligned(window: PlotView, duration: Fixed, point: Point)
    requires
        window.aligned(),
    ensures
        window.spec_record(
            point.time,
            duration,
            point.position,
            point.velocity,
            point.voltage,
            point.torque,
        ).aligned(),
{
    let evict = point.time.gt(duration);
    lemma_slide_times(window.pos, evict, point.time, point.position);
    lemma_slide_times(window.vel, evict, point.time, point.velocity);
    lemma_slide_times(window.voltage, evict, point.time, point.voltage);
    lemma_slide_times(window.trq, evict, point.time, point.torque);
    assert(spec_times(window.vel).len() == spec_times(window.pos).len());
    assert(spec_times(window.voltage).len() == spec_times(window.pos).len());
    assert(spec_times(window.trq).len() == spec_times(window.pos).len());
}

/// Each series of a window that took in a run of ticks is that series slid
/// over its own samples of the run.
pub proof fn lemma_record_all_by_series(window: PlotView, duration: Fixed, run: Seq<Point>)
    ensures
        ({
            let after = window.spec_record_all(duration, run);
            &&& after.pos == spec_slide_all(
                window.pos,
                duration,
                run.map_values(|p: Point| p.position_sample()),
            )
            &&& after.vel == spec_slide_all(
                window.vel,
                duration,
                run.map_values(|p: Point| p.velocity_sample()),
            )
            &&& after.voltage == spec_slide_all(
                window.voltage,
                duration,
                run.map_values(|p: Point| p.voltage_sample()),
            )
            &&& after.trq == spec_slide_all(
                window.trq,
                duration,
                run.map_values(|p: Point| p.torque_sample()),
            )
        }),
    decreases run.len(),
{
    if run.len() > 0 {
        let init = run.drop_last();
        let last = run.last();
        lemma_record_all_by_series(window, duration, init);
        assert(run.map_values(|p: Point| p.position_sample()).drop_last() =~= init.map_values(
            |p: Point| p.position_sample(),
        ));
        assert(run.map_values(|p: Point| p.velocity_sample()).drop_last() =~= init.map_values(
            |p: Point| p.velocity_sample(),
        ));
        assert(run.map_values(|p: Point| p.voltage_sample()).drop_last() =~= init.map_values(
            |p: Point| p.voltage_sample(),
        ));
        assert(run.map_values(|p: Point| p.torque_sample()).drop_last() =~= init.map_values(
            |p: Point| p.torque_sample(),
        ));
        assert(last.position_sample()[0] == last.time);
        assert(last.velocity_sample()[0] == last.time);
        assert(last.voltage_sample()[0] == last.time);
        assert(last.torque_sample()[0] == last.time);
    }
}

/// With ticks `spacing` apart, the first one `spacing` after the start, a
/// series that started empty holds the latest samples and never more than
/// fit into `duration`: it grows until the ticks pass the duration and keeps
/// its length from then on, and the time from its oldest to its newest
/// sample is within `duration`, and within two ticks of it from then on.
pub proof fn lemma_uniform_series(duration: Fixed, spacing: Fixed, run: Seq<[Fixed; 2]>)
    requires
        spacing@ > 0,
        duration@ >= 0,
        forall|i: int| 0 <= i < run.len() ==> (#[trigger] run[i])[0]@ == (i + 1) * spacing@,
    ensures
        ({
            let window = spec_slide_all(Seq::empty(), duration, run);
            let capacity = spec_capacity(duration, spacing);
            &&& window.len() == (if run.len() <= duration@ / spacing@ {
                run.len() as int
            } else {
                capacity
            })
            &&& window.len() <= capacity
            &&& window == run.subrange(run.len() - window.len(), run.len() as int)
            &&& run.len() > 0 ==> window.last()[0]@ - window[0][0]@ == (window.len() - 1)
                * spacing@
            &&& run.len() > 0 ==> window.last()[0]@ - window[0][0]@ <= duration@
            &&& run.len() > duration@ / spacing@ >= 1 ==> window.last()[0]@ - window[0][0]@
                > duration@ - 2 * spacing@
        }),
    decreases run.len(),
{
    let fit = duration@ / spacing@;
    let capacity = spec_capacity(duration, spacing);
    let window = spec_slide_all(Seq::empty(), duration, run);
    let n = run.len() as int;
    vstd::arithmetic::div_mod::lemma_fundamental_div_mod(duration@, spacing@);
    vstd::arithmetic::div_mod::lemma_div_pos_is_pos(duration@, spacing@);
    assert(fit * spacing@ <= duration@ < (fit + 1) * spacing@) by (nonlinear_arith)
        requires
            duration@ == spacing@ * fit + duration@ % spacing@,
            0 <= duration@ % spacing@ < spacing@,
    ;
    if n == 0 {
        assert(window =~= run.subrange(0, 0));
    } else {
        let init = run.drop_last();
        let before = spec_slide_all(Seq::empty(), duration, init);
        assert forall|i: int| 0 <= i < init.len() implies (#[trigger] init[i])[0]@ == (i + 1)
            * spacing@ by {
            assert(init[i] == run[i]);
        }
        lemma_uniform_series(duration, spacing, init);
        let sample = run.last();
        assert(sample == run[n - 1]);
        let evict = sample[0].gt(duration);
        assert(evict <==> n > fit) by (nonlinear_arith)
            requires
                evict <==> n * spacing@ > duration@,
                fit * spacing@ <= duration@ < (fit + 1) * spacing@,
                spacing@ > 0,
        ;
        assert(window == spec_slide(before, evict, sample));
        assert(window =~= run.subrange(n - window.len(), n));
        let first = window[0];
        let len = window.len() as int;
        assert(first == run[n - len]);
        assert(first[0]@ == (n - len + 1) * spacing@);
        assert(window.last()[0]@ == n * spacing@);
        assert(n * spacing@ - (n - len + 1) * spacing@ == (len - 1) * spacing@)
            by (nonlinear_arith);
        assert((len - 1) * spacing@ <= duration@) by (nonlinear_arith)
            requires
                len <= capacity,
                len >= 1,
                capacity == (if fit >= 1 {
                    fit
                } else {
                    1
                }),
                fit * spacing@ <= duration@,
                spacing@ > 0,
                duration@ >= 0,
        ;
        if n > fit && fit >= 1 {
            assert((len - 1) * spacing@ > duration@ - 2 * spacing@) by (nonlinear_arith)
                requires
                    len == fit,
                    duration@ < (fit + 1) * spacing@,
            ;
        }
    }
}

/// The window in steady state. With ticks `spacing` apart, the first one
/// `spacing` after the start, a window that started empty never holds more
/// samples than fit into `duration`, and one at least: each series grows
/// until the ticks pass the duration and keeps its length from then on. It
/// holds the latest ticks, and the time that it spans is within `duration`,
/// and within two ticks of it once the ticks have passed the duration.
pub proof fn lemma_window_of_even_ticks(duration: Fixed, spacing: Fixed, run: Seq<Point>)
    requires
        spacing@ > 0,
        duration@ >= 0,
        forall|i: int| 0 <= i < run.len() ==> (#[trigger] run[i]).time@ == (i + 1) * spacing@,
    ensures
        ({
            let window = PlotView::spec_empty().spec_record_all(duration, run);
            let capacity = spec_capacity(duration, spacing);
            let len = window.pos.len() as int;
            let skipped = run.len() - len;
            &&& window.aligned()
            &&& len == (if run.len() <= duration@ / spacing@ {
                run.len() as int
            } else {
                capacity
            })
            &&& len <= capacity
            &&& window.vel.len() == len && window.voltage.len() == len && window.trq.len() == len
            &&& forall|k: int|
                0 <= k < len ==> {
                    &&& window.pos[k] == (#[trigger] run[skipped + k]).position_sample()
                    &&& window.vel[k] == run[skipped + k].velocity_sample()
                    &&& window.voltage[k] == run[skipped + k].voltage_sample()
                    &&& window.trq[k] == run[skipped + k].torque_sample()
                }
            &&& run.len() > 0 ==> window.pos.last()[0]@ - window.pos[0][0]@ <= duration@
            &&& run.len() > duration@ / spacing@ >= 1 ==> window.pos.last()[0]@
                - window.pos[0][0]@ > duration@ - 2 * spacing@
        }),
{
    let window = PlotView::spec_empty().spec_record_all(duration, run);
    let positions = run.map_values(|p: Point| p.position_sample());
    let velocities = run.map_values(|p: Point| p.velocity_sample());
    let voltages = run.map_values(|p: Point| p.voltage_sample());
    let torques = run.map_values(|p: Point| p.torque_sample());
    lemma_record_all_by_series(PlotView::spec_empty(), duration, run);
    assert forall|i: int| 0 <= i < run.len() implies (#[trigger] positions[i])[0]@ == (i + 1)
        * spacing@ by {
        assert(run[i].position_sample()[0] == run[i].time);
    }
    assert forall|i: int| 0 <= i < run.len() implies (#[trigger] velocities[i])[0]@ == (i + 1)
        * spacing@ by {
        assert(run[i].velocity_sample()[0] == run[i].time);
    }
    assert forall|i: int| 0 <= i < run.len() implies (#[trigger] voltages[i])[0]@ == (i + 1)
        * spacing@ by {
        assert(run[i].voltage_sample()[0] == run[i].time);
    }
    assert forall|i: int| 0 <= i < run.len() implies (#[trigger] torques[i])[0]@ == (i + 1)
        * spacing@ by {
        assert(run[i].torque_sample()[0] == run[i].time);
    }
    lemma_uniform_series(duration, spacing, positions);
    lemma_uniform_series(duration, spacing, velocities);
    lemma_uniform_series(duration, spacing, voltages);
    lemma_uniform_series(duration, spacing, torques);
    let len = window.pos.len() as int;
    let skipped = run.len() - len;
    assert forall|k: int| 0 <= k < len implies {
        &&& window.pos[k] == (#[trigger] run[skipped + k]).position_sample()
        &&& window.vel[k] == run[skipped + k].velocity_sample()
        &&& window.voltage[k] == run[skipped + k].voltage_sample()
        &&& window.trq[k] == run[skipped + k].torque_sample()
    } by {
        assert(window.pos[k] == positions[skipped + k]);
        assert(window.vel[k] == velocities[skipped + k]);
        assert(window.voltage[k] == voltages[skipped + k]);
        assert(window.trq[k] == torques[skipped + k]);
    }
    assert(spec_times(window.vel) =~= spec_times(window.pos)) by {
        assert forall|k: int| 0 <= k < len implies window.vel[k][0] == window.pos[k][0] by {
            assert(run[skipped + k].velocity_sample()[0] == run[skipped + k].time);
            assert(run[skipped + k].position_sample()[0] == run[skipped + k].time);
        }
    }
    assert(spec_times(window.voltage) =~= spec_times(window.pos)) by {
        assert forall|k: int| 0 <= k < len implies window.voltage[k][0] == window.pos[k][0] by {
            assert(run[skipped + k].voltage_sample()[0] == run[skipped + k].time);
            assert(run[skipped + k].position_sample()[0] == run[skipped + k].time);
        }
    }
    assert(spec_times(window.trq) =~= spec_times(window.pos)) by {
        assert forall|k: int| 0 <= k < len implies window.trq[k][0] == window.pos[k][0] by {
            assert(run[skipped + k].torque_sample()[0] == run[skipped + k].time);
            assert(run[skipped + k].position_sample()[0] == run[skipped + k].time);
        }
    }
}

} // verus!
