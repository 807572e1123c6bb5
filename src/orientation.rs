//! Raw samples, the smoothing tracker, and the classification of its estimate.

use vstd::prelude::*;

verus! {

/// Smallest magnitude that an axis of the estimate must exceed to count as
/// carrying gravity.
pub const MIN_MAGNITUDE: i32 = 4200;

/// Margin by which the dominant axis must exceed each of the other two;
/// axes closer than this are treated as a tie.
pub const DOMINANCE_MARGIN: i32 = 4096;

/// Largest magnitude a raw axis reading can take.
pub const FULL_SCALE: i32 = 32767;

/// Discrete attitude of the board relative to gravity.
#[derive(Clone, Copy, Debug, PartialEq, Eq, Structural)]
pub enum Orientation {
    Unknown,
    PortraitUp,
    PortraitDown,
    LandscapeUp,
    LandscapeDown,
    FaceUp,
    FaceDown,
}

/// One reading of the accelerometer, in the sensor's native units.
#[derive(Clone, Copy, Debug, PartialEq, Eq, Structural)]
pub struct RawSample {
    pub x: i16,
    pub y: i16,
    pub z: i16,
}

/// The tracker's filtered estimate of the gravity vector.
pub struct Estimate {
    pub x: int,
    pub y: int,
    pub z: int,
}

pub open spec fn abs(v: int) -> int {
    if v < 0 {
        -v
    } else {
        v
    }
}

/// Axis `a` carries gravity and beats `b` and `c` by more than the margin.
pub open spec fn dominates(a: int, b: int, c: int) -> bool {
    &&& abs(a) > MIN_MAGNITUDE
    &&& abs(a) - abs(b) > DOMINANCE_MARGIN
    &&& abs(a) - abs(c) > DOMINANCE_MARGIN
}

/// The attitude that a gravity vector stands for; `Unknown` when no single
/// axis dominates.
pub open spec fn classify(x: int, y: int, z: int) -> Orientation {
    if dominates(x, y, z) {
        if x >= 0 {
            Orientation::LandscapeUp
        } else {
            Orientation::LandscapeDown
        }
    } else if dominates(y, x, z) {
        if y >= 0 {
            Orientation::PortraitUp
        } else {
            Orientation::PortraitDown
        }
    } else if dominates(z, x, y) {
        if z <= 0 {
            Orientation::FaceUp
        } else {
            Orientation::FaceDown
        }
    } else {
        Orientation::Unknown
    }
}

/// A quarter of `w`, rounded toward zero.
pub open spec fn quarter(w: int) -> int {
    if w >= 0 {
        w / 4
    } else {
        -((-w) / 4)
    }
}

/// One step of the single-pole low-pass filter: move a quarter of the way
/// from the estimate `f` toward the reading `s`, or onto the reading once it
/// is within three counts, where a quarter step would round to nothing.
pub open spec fn smooth(f: int, s: int) -> int {
    if abs(s - f) <= 3 {
        s
    } else {
        f + quarter(s - f)
    }
}

/// The estimate after integrating one sample.
pub open spec fn next_estimate(e: Estimate, s: RawSample) -> Estimate {
    Estimate { x: smooth(e.x, s.x as int), y: smooth(e.y, s.y as int), z: smooth(e.z, s.z as int) }
}

/// The estimate after integrating every sample of `ss`, first to last.
pub open spec fn feed(e: Estimate, ss: Seq<RawSample>) -> Estimate
    decreases ss.len(),
{
    if ss.len() == 0 {
        e
    } else {
        next_estimate(feed(e, ss.drop_last()), ss.last())
    }
}

pub open spec fn in_sample_range(v: int) -> bool {
    i16::MIN <= v <= i16::MAX
}

/// Every component of the estimate lies in the range of a raw reading.
pub open spec fn estimate_in_range(e: Estimate) -> bool {
    in_sample_range(e.x) && in_sample_range(e.y) && in_sample_range(e.z)
}

pub open spec fn classify_estimate(e: Estimate) -> Orientation {
    classify(e.x, e.y, e.z)
}

fn abs_i32(v: i32) -> (r: i32)
    requires
        v > i32::MIN,
    ensures
        r == abs(v as int),
{
    if v < 0 {
        -v
    } else {
        v
    }
}

fn dominates_exec(a: i32, b: i32, c: i32) -> (r: bool)
    requires
        in_sample_range(a as int),
        in_sample_range(b as int),
        in_sample_range(c as int),
    ensures
        r == dominates(a as int, b as int, c as int),
{
    let (aa, ab, ac) = (abs_i32(a), abs_i32(b), abs_i32(c));
    aa > MIN_MAGNITUDE && aa - ab > DOMINANCE_MARGIN && aa - ac > DOMINANCE_MARGIN
}

/// Classifies a gravity vector whose components lie in the range of a raw
/// reading.
pub fn classify_vector(x: i32, y: i32, z: i32) -> (r: Orientation)
    requires
        in_sample_range(x as int),
        in_sample_range(y as int),
        in_sample_range(z as int),
    ensures
        r == classify(x as int, y as int, z as int),
{
    if dominates_exec(x, y, z) {
        if x >= 0 {
            Orientation::LandscapeUp
        } else {
            Orientation::LandscapeDown
        }
    } else if dominates_exec(y, x, z) {
        if y >= 0 {
            Orientation::PortraitUp
        } else {
            Orientation::PortraitDown
        }
    } else if dominates_exec(z, x, y) {
        if z <= 0 {
            Orientation::FaceUp
        } else {
            Orientation::FaceDown
        }
    } else {
        Orientation::Unknown
    }
}

fn smooth_exec(f: i32, s: i16) -> (r: i32)
    requires
        in_sample_range(f as int),
    ensures
        r == smooth(f as int, s as int),
        in_sample_range(r as int),
{
    let w: i32 = s as i32 - f;
    if -3 <= w && w <= 3 {
        return s as i32;
    }
    let q: i32 = if w >= 0 {
        w / 4
    } else {
        -((-w) / 4)
    };
    f + q
}

/// Maintains a smoothed estimate of the gravity vector from a stream of raw
/// samples and classifies it on demand.
pub struct OrientationTracker {
    x: i32,
    y: i32,
    z: i32,
}

impl View for OrientationTracker {
    type V = Estimate;

    closed spec fn view(&self) -> Estimate {
        Estimate { x: self.x as int, y: self.y as int, z: self.z as int }
    }
}

impl OrientationTracker {
    /// The estimate stays within the range of a raw reading.
    pub open spec fn wf(&self) -> bool {
        estimate_in_range(self@)
    }

    /// The estimate of a tracker that has seen no sample.
    pub open spec fn new_view() -> Estimate {
        Estimate { x: 0, y: 0, z: 0 }
    }

    /// A tracker that has seen no sample: its estimate is the zero vector.
    pub fn new() -> (r: Self)
        ensures
            r.wf(),
            r@ == Self::new_view(),
    {
        OrientationTracker { x: 0, y: 0, z: 0 }
    }

    /// Integrates one sample into the estimate. Never fails.
    pub fn update(&mut self, sample: RawSample)
        requires
            old(self).wf(),
        ensures
            final(self).wf(),
            final(self)@ == next_estimate(old(self)@, sample),
    {
        self.x = smooth_exec(self.x, sample.x);
        self.y = smooth_exec(self.y, sample.y);
        self.z = smooth_exec(self.z, sample.z);
    }

    /// The current estimate, axis by axis.
    pub fn estimate(&self) -> (r: (i32, i32, i32))
        ensures
            r.0 == self@.x,
            r.1 == self@.y,
            r.2 == self@.z,
    {
        (self.x, self.y, self.z)
    }

    /// The current classification of the estimate; defined for every state.
    pub fn orientation(&self) -> (r: Orientation)
        requires
            self.wf(),
        ensures
            r == classify_estimate(self@),
    {
        classify_vector(self.x, self.y, self.z)
    }
}

/// Largest distance of a noisy reading from the gravity sample it stands for:
/// five per cent of full scale.
pub const NOISE: i32 = 1638;

/// Number of samples after which the estimate has settled on a steady pull.
pub const SETTLE_UPDATES: u32 = 112;

/// A reading with gravity at full scale along one axis and nothing on the others.
pub open spec fn axis_aligned(g: RawSample) -> bool {
    ||| abs(g.x as int) == FULL_SCALE && g.y == 0 && g.z == 0
    ||| g.x == 0 && abs(g.y as int) == FULL_SCALE && g.z == 0
    ||| g.x == 0 && g.y == 0 && abs(g.z as int) == FULL_SCALE
}

/// Every axis of `s` lies within the noise band around `g`.
pub open spec fn within_noise(s: RawSample, g: RawSample) -> bool {
    &&& abs(s.x - g.x) <= NOISE
    &&& abs(s.y - g.y) <= NOISE
    &&& abs(s.z - g.z) <= NOISE
}

/// Distance from the target that the estimate is guaranteed to be within
/// after `k` noisy samples, starting anywhere in the sample range.
pub open spec fn envelope(k: nat) -> int {
    if 65535 - 589 * k <= 4000 {
        4000
    } else {
        65535 - 589 * k
    }
}

proof fn lemma_quarter_bounds(w: int)
    ensures
        w - 3 <= 4 * quarter(w) <= w + 3,
        w >= 0 ==> 0 <= quarter(w) <= w,
        w < 0 ==> w <= quarter(w) <= 0,
        quarter(-w) == -quarter(w),
{
}

/// One filter step toward a noisy reading shrinks the distance to the target
/// along the envelope.
proof fn lemma_axis_step(f: int, s: int, target: int, b: int)
    requires
        abs(f - target) <= b,
        abs(s - target) <= NOISE,
        b >= 0,
    ensures
        abs(smooth(f, s) - target) <= if b - 589 <= 4000 { 4000 } else { b - 589 },
{
    lemma_quarter_bounds(s - f);
}

proof fn lemma_envelope(e: Estimate, g: RawSample, ss: Seq<RawSample>)
    requires
        estimate_in_range(e),
        forall|i: int| 0 <= i < ss.len() ==> within_noise(#[trigger] ss[i], g),
    ensures
        abs(feed(e, ss).x - g.x) <= envelope(ss.len()),
        abs(feed(e, ss).y - g.y) <= envelope(ss.len()),
        abs(feed(e, ss).z - g.z) <= envelope(ss.len()),
    decreases ss.len(),
{
    if ss.len() > 0 {
        let prev = ss.drop_last();
        assert forall|i: int| 0 <= i < prev.len() implies within_noise(#[trigger] prev[i], g) by {
            assert(prev[i] == ss[i]);
        }
        lemma_envelope(e, g, prev);
        let p = feed(e, prev);
        let b = envelope(prev.len());
        assert(within_noise(ss[ss.len() - 1], g));
        lemma_axis_step(p.x, ss.last().x as int, g.x as int, b);
        lemma_axis_step(p.y, ss.last().y as int, g.y as int, b);
        lemma_axis_step(p.z, ss.last().z as int, g.z as int, b);
    }
}

/// At most one axis of any vector dominates, so the classification names a
/// single attitude and never depends on the order in which axes are tried.
pub proof fn lemma_single_dominant_axis(x: int, y: int, z: int)
    ensures
        !(dominates(x, y, z) && dominates(y, x, z)),
        !(dominates(x, y, z) && dominates(z, x, y)),
        !(dominates(y, x, z) && dominates(z, x, y)),
{
}

/// Fed at least `SETTLE_UPDATES` readings that each lie within the noise band
/// around a full-scale pull along one axis, a tracker in any state reports
/// the attitude of that pull, and keeps reporting it for as long as the
/// readings stay in the band.
pub proof fn lemma_settles_on_steady_pull(t: OrientationTracker, g: RawSample, ss: Seq<RawSample>)
    requires
        t.wf(),
        axis_aligned(g),
        ss.len() >= SETTLE_UPDATES,
        forall|i: int| 0 <= i < ss.len() ==> within_noise(#[trigger] ss[i], g),
    ensures
        classify_estimate(feed(t@, ss)) == classify(g.x as int, g.y as int, g.z as int),
        classify(g.x as int, g.y as int, g.z as int) != Orientation::Unknown,
{
    lemma_envelope(t@, g, ss);
    assert(envelope(ss.len()) == 4000);
}

/// Axes `a` and `b` are within the margin of each other, and the third
/// axis `c` is no stronger than `a` or does not reach the magnitude threshold.
pub open spec fn split_pair(a: int, b: int, c: int) -> bool {
    abs(abs(a) - abs(b)) <= DOMINANCE_MARGIN && (abs(c) <= abs(a) || abs(c) <= MIN_MAGNITUDE)
}

/// Some pair of axes splits the vector nearly evenly, the third staying low.
pub open spec fn near_level(e: Estimate) -> bool {
    split_pair(e.x, e.y, e.z) || split_pair(e.x, e.z, e.y) || split_pair(e.y, e.z, e.x)
}

/// A near-level estimate is classified `Unknown`.
pub proof fn lemma_near_level_is_unknown(e: Estimate)
    requires
        near_level(e),
    ensures
        classify_estimate(e) == Orientation::Unknown,
{
}

/// The reading repeated `n` times.
pub open spec fn repeated(s: RawSample, n: nat) -> Seq<RawSample> {
    Seq::new(n, |i: int| s)
}

/// Distance from a steady reading that the estimate is guaranteed to be
/// within after `k` updates with that reading, starting anywhere in the
/// sample range.
pub open spec fn settle_bound(k: nat) -> int
    decreases k,
{
    if k == 0 {
        65535
    } else {
        let b = settle_bound((k - 1) as nat);
        if b <= 3 {
            0
        } else {
            b - b / 4
        }
    }
}

proof fn lemma_settle_bound_reaches_zero(k: nat)
    requires
        k >= 38,
    ensures
        settle_bound(k) == 0,
    decreases k,
{
    if k > 38 {
        lemma_settle_bound_reaches_zero((k - 1) as nat);
    } else {
        assert(settle_bound(0) == 65535);
        assert(settle_bound(1) == 49152);
        assert(settle_bound(2) == 36864);
        assert(settle_bound(3) == 27648);
        assert(settle_bound(4) == 20736);
        assert(settle_bound(5) == 15552);
        assert(settle_bound(6) == 11664);
        assert(settle_bound(7) == 8748);
        assert(settle_bound(8) == 6561);
        assert(settle_bound(9) == 4921);
        assert(settle_bound(10) == 3691);
        assert(settle_bound(11) == 2769);
        assert(settle_bound(12) == 2077);
        assert(settle_bound(13) == 1558);
        assert(settle_bound(14) == 1169);
        assert(settle_bound(15) == 877);
        assert(settle_bound(16) == 658);
        assert(settle_bound(17) == 494);
        assert(settle_bound(18) == 371);
        assert(settle_bound(19) == 279);
        assert(settle_bound(20) == 210);
        assert(settle_bound(21) == 158);
        assert(settle_bound(22) == 119);
        assert(settle_bound(23) == 90);
        assert(settle_bound(24) == 68);
        assert(settle_bound(25) == 51);
        assert(settle_bound(26) == 39);
        assert(settle_bound(27) == 30);
        assert(settle_bound(28) == 23);
        assert(settle_bound(29) == 18);
        assert(settle_bound(30) == 14);
        assert(settle_bound(31) == 11);
        assert(settle_bound(32) == 9);
        assert(settle_bound(33) == 7);
        assert(settle_bound(34) == 6);
        assert(settle_bound(35) == 5);
        assert(settle_bound(36) == 4);
        assert(settle_bound(37) == 3);
        assert(settle_bound(38) == 0);
    }
}

proof fn lemma_axis_step_steady(f: int, s: int, b: int)
    requires
        abs(f - s) <= b,
    ensures
        abs(smooth(f, s) - s) <= if b <= 3 { 0 } else { b - b / 4 },
{
    lemma_quarter_bounds(s - f);
}

proof fn lemma_steady_distance(e: Estimate, s: RawSample, n: nat)
    requires
        estimate_in_range(e),
    ensures
        abs(feed(e, repeated(s, n)).x - s.x) <= settle_bound(n),
        abs(feed(e, repeated(s, n)).y - s.y) <= settle_bound(n),
        abs(feed(e, repeated(s, n)).z - s.z) <= settle_bound(n),
    decreases n,
{
    if n > 0 {
        let m = (n - 1) as nat;
        assert(repeated(s, n).drop_last() =~= repeated(s, m));
        lemma_steady_distance(e, s, m);
        let p = feed(e, repeated(s, m));
        lemma_axis_step_steady(p.x, s.x as int, settle_bound(m));
        lemma_axis_step_steady(p.y, s.y as int, settle_bound(m));
        lemma_axis_step_steady(p.z, s.z as int, settle_bound(m));
    }
}

/// Fed the same reading at least `SETTLE_UPDATES` times, a tracker in any
/// state holds exactly that reading as its estimate, and so reports the
/// classification of the reading itself, whatever came before.
pub proof fn lemma_steady_reading_settles(t: OrientationTracker, s: RawSample, n: nat)
    requires
        t.wf(),
        n >= SETTLE_UPDATES,
    ensures
        feed(t@, repeated(s, n)) == (Estimate { x: s.x as int, y: s.y as int, z: s.z as int }),
        classify_estimate(feed(t@, repeated(s, n))) == classify(s.x as int, s.y as int, s.z as int),
{
    lemma_steady_distance(t@, s, n);
    lemma_settle_bound_reaches_zero(n);
}

/// Fed at least `SETTLE_UPDATES` times a reading whose two strongest axes are
/// within the margin of each other, with the third axis no stronger or below
/// the magnitude threshold, a tracker in any state reports `Unknown` rather
/// than picking either axis. This holds for every pair of axes and every
/// choice of signs.
pub proof fn lemma_near_level_reading_stays_unknown(t: OrientationTracker, s: RawSample, n: nat)
    requires
        t.wf(),
        n >= SETTLE_UPDATES,
        near_level(Estimate { x: s.x as int, y: s.y as int, z: s.z as int }),
    ensures
        classify_estimate(feed(t@, repeated(s, n))) == Orientation::Unknown,
{
    lemma_steady_reading_settles(t, s, n);
    lemma_near_level_is_unknown(feed(t@, repeated(s, n)));
}

} // verus!
