//! Push-to-talk capture: picking a microphone, mixing its channels down to one,
//! and cutting the result into frames of 20 ms.
use vstd::prelude::*;

use crate::text::{contains, to_lowercase};
#[allow(unused_imports)]
use crate::text::{lowercase, occurs, views};

verus! {

/// The rate at which speech is encoded, in samples per second.
pub const SAMPLE_RATE: u32 = 48_000;

/// The length of a frame.
pub const FRAME_MS: u64 = 20;

/// The samples of a frame.
pub const FRAME_SAMPLES: usize = 960;

/// The rate of the encoded speech, in bits per second.
pub const BITRATE: i32 = 24_000;

/// How many frames may wait for the encoder.
pub const FRAME_BACKLOG: usize = 64;

/// How long the encoder waits for a frame before it looks whether to stop.
pub const FRAME_WAIT_MS: u64 = 100;

/// Room for an encoded frame, in bytes.
pub const PACKET_BYTES: usize = 4_000;

/// A frame is as long as it says.
pub proof fn frames_last_twenty_ms()
    ensures
        FRAME_SAMPLES * 1000 == SAMPLE_RATE * FRAME_MS,
{
}

// ---- picking a microphone ----

/// Whether a microphone is one that was asked for: what was asked for stands in
/// its name, whatever the case.
pub open spec fn suits(name: Seq<char>, want: Seq<char>) -> bool {
    occurs(lowercase(name), lowercase(want))
}

/// Whether the microphone that is picked is the first one that suits.
pub open spec fn device_picked(
    preferred: Option<Seq<char>>,
    names: Seq<String>,
    r: Option<usize>,
) -> bool {
    match r {
        Some(i) => {
            &&& preferred is Some
            &&& i < names.len()
            &&& suits(names[i as int]@, preferred->0)
            &&& forall|k: int| 0 <= k < i ==> !suits((#[trigger] names[k])@, preferred->0)
        },
        None => preferred matches Some(want) ==> forall|k: int|
            0 <= k < names.len() ==> !suits((#[trigger] names[k])@, want),
    }
}

/// Picks a microphone by its name. Nothing is the one of the system: when none
/// was asked for, and when none suits.
pub fn pick_device(preferred: Option<&str>, names: &Vec<String>) -> (r: Option<usize>)
    ensures
        device_picked(
            match preferred {
                Some(want) => Some(want@),
                None => None,
            },
            names@,
            r,
        ),
{
    let want = match preferred {
        Some(w) => to_lowercase(w),
        None => {
            return None;
        },
    };
    let mut i: usize = 0;
    while i < names.len()
        invariant
            i <= names.len(),
            preferred is Some,
            want@ == lowercase(preferred->0@),
            forall|k: int| 0 <= k < i ==> !suits((#[trigger] names@[k])@, preferred->0@),
        decreases names.len() - i,
    {
        if contains(to_lowercase(names[i].as_str()).as_str(), want.as_str()) {
            return Some(i);
        }
        i += 1;
    }
    None
}

/// Whether the range that is picked is the first one that has the rate of speech.
pub open spec fn range_picked(ranges: Seq<(u32, u32)>, r: Option<usize>) -> bool {
    match r {
        Some(i) => {
            &&& i < ranges.len()
            &&& ranges[i as int].0 <= SAMPLE_RATE <= ranges[i as int].1
            &&& forall|k: int|
                0 <= k < i ==> !((#[trigger] ranges[k]).0 <= SAMPLE_RATE <= ranges[k].1)
        },
        None => forall|k: int|
            0 <= k < ranges.len() ==> !((#[trigger] ranges[k]).0 <= SAMPLE_RATE <= ranges[k].1),
    }
}

/// Picks the first of the ranges of sample rates that has the one for speech.
/// Nothing is the range that the microphone itself prefers.
pub fn pick_config(ranges: &Vec<(u32, u32)>) -> (r: Option<usize>)
    ensures
        range_picked(ranges@, r),
{
    let mut i: usize = 0;
    while i < ranges.len()
        invariant
            i <= ranges.len(),
            forall|k: int|
                0 <= k < i ==> !((#[trigger] ranges@[k]).0 <= SAMPLE_RATE <= ranges@[k].1),
        decreases ranges.len() - i,
    {
        if ranges[i].0 <= SAMPLE_RATE && SAMPLE_RATE <= ranges[i].1 {
            return Some(i);
        }
        i += 1;
    }
    None
}

// ---- mixing ----

/// Division that rounds towards zero.
pub open spec fn quotient(a: int, b: int) -> int {
    if a >= 0 {
        a / b
    } else {
        -((-a) / b)
    }
}

/// A sample of a microphone.
pub trait PcmSample: Copy {
    /// The largest distance of a level from silence.
    spec fn reach() -> int;

    /// How far the sample is from silence.
    spec fn level(self) -> int;

    /// The 16-bit level that a mean level stands for.
    spec fn scaled(mean: int) -> int;

    /// No level needs more than 32 bits.
    proof fn reach_is_bounded()
        ensures
            0 < Self::reach() <= 0x8000_0000,
    ;

    /// How far the sample is from silence.
    fn measure(self) -> (r: i64)
        ensures
            r == self.level(),
            -Self::reach() <= self.level() < Self::reach(),
    ;

    /// Scales a mean level to 16 bits.
    fn scale(mean: i64) -> (r: i16)
        requires
            -Self::reach() <= mean < Self::reach(),
        ensures
            r == Self::scaled(mean as int),
    ;
}

impl PcmSample for i16 {
    open spec fn reach() -> int {
        0x8000
    }

    open spec fn level(self) -> int {
        self as int
    }

    open spec fn scaled(mean: int) -> int {
        mean
    }

    proof fn reach_is_bounded() {
    }

    fn measure(self) -> (r: i64) {
        self as i64
    }

    fn scale(mean: i64) -> (r: i16) {
        mean as i16
    }
}

impl PcmSample for u16 {
    open spec fn reach() -> int {
        0x8000
    }

    open spec fn level(self) -> int {
        self - 0x8000
    }

    open spec fn scaled(mean: int) -> int {
        mean
    }

    proof fn reach_is_bounded() {
    }

    fn measure(self) -> (r: i64) {
        self as i64 - 0x8000
    }

    fn scale(mean: i64) -> (r: i16) {
        mean as i16
    }
}

impl PcmSample for i8 {
    open spec fn reach() -> int {
        0x80
    }

    open spec fn level(self) -> int {
        self as int
    }

    open spec fn scaled(mean: int) -> int {
        mean * 256
    }

    proof fn reach_is_bounded() {
    }

    fn measure(self) -> (r: i64) {
        self as i64
    }

    fn scale(mean: i64) -> (r: i16) {
        (mean * 256) as i16
    }
}

impl PcmSample for u8 {
    open spec fn reach() -> int {
        0x80
    }

    open spec fn level(self) -> int {
        self - 0x80
    }

    open spec fn scaled(mean: int) -> int {
        mean * 256
    }

    proof fn reach_is_bounded() {
    }

    fn measure(self) -> (r: i64) {
        self as i64 - 0x80
    }

    fn scale(mean: i64) -> (r: i16) {
        (mean * 256) as i16
    }
}

impl PcmSample for i32 {
    open spec fn reach() -> int {
        0x8000_0000
    }

    open spec fn level(self) -> int {
        self as int
    }

    /// The upper half of the level: it rounds down, also below zero.
    open spec fn scaled(mean: int) -> int {
        mean / 0x1_0000
    }

    proof fn reach_is_bounded() {
    }

    fn measure(self) -> (r: i64) {
        self as i64
    }

    fn scale(mean: i64) -> (r: i16) {
        let up: u64 = (mean + 0x8000_0000) as u64;
        let r: i64 = (up / 0x1_0000) as i64 - 0x8000;
        r as i16
    }
}

/// The sum of levels.
pub open spec fn level_sum<S: PcmSample>(s: Seq<S>) -> int
    decreases s.len(),
{
    if s.len() == 0 {
        0
    } else {
        level_sum(s.drop_last()) + s.last().level()
    }
}

/// The samples of all channels at one moment.
pub open spec fn moment<S>(data: Seq<S>, channels: int, k: int) -> Seq<S> {
    data.subrange(k * channels, k * channels + channels)
}

/// One channel out of many: the mean of the channels at each moment. What does
/// not fill a moment at the end is left out.
pub open spec fn mixed<S: PcmSample>(data: Seq<S>, channels: int) -> Seq<int> {
    Seq::new(
        (data.len() / channels as nat) as nat,
        |k: int| S::scaled(quotient(level_sum(moment(data, channels, k)), channels)),
    )
}

/// A mean lies where the levels lie.
proof fn lemma_mean(sum: int, n: int, reach: int)
    by (nonlinear_arith)
    requires
        n > 0,
        reach > 0,
        -(n * reach) <= sum,
        sum <= n * (reach - 1),
    ensures
        -reach <= quotient(sum, n) < reach,
{
}

/// One more moment fits before the end.
proof fn lemma_moment(len: int, channels: int, k: int)
    by (nonlinear_arith)
    requires
        channels > 0,
        0 <= k < len / channels,
    ensures
        0 <= k * channels,
        k * channels + channels <= len,
        (k + 1) * channels == k * channels + channels,
{
}

/// The mean of the channels at one moment.
fn mean_at<S: PcmSample>(data: &Vec<S>, channels: usize, from: usize) -> (r: i16)
    requires
        1 <= channels <= 0xffff,
        from + channels <= data@.len(),
    ensures
        r == S::scaled(
            quotient(
                level_sum(data@.subrange(from as int, from + channels)),
                channels as int,
            ),
        ),
{
    let ghost all = data@.subrange(from as int, from + channels);
    let total = data.len();
    let mut sum: i64 = 0;
    let mut i: usize = 0;
    let ghost reach = S::reach();
    proof {
        S::reach_is_bounded();
    }
    assert(all.take(0) =~= Seq::<S>::empty());
    while i < channels
        invariant
            i <= channels,
            1 <= channels <= 0xffff,
            total == data@.len(),
            from + channels <= total,
            all == data@.subrange(from as int, from + channels),
            reach == S::reach(),
            0 < reach <= 0x8000_0000,
            sum == level_sum(all.take(i as int)),
            -(i * reach) <= sum <= i * (reach - 1),
            -0x8000_0000 * 0x1_0000 <= sum <= 0x8000_0000 * 0x1_0000,
        decreases channels - i,
    {
        let level = data[from + i].measure();
        proof {
            assert(all.take(i + 1).drop_last() == all.take(i as int));
            assert(all.take(i + 1).last() == data@[from + i]);
            assert(-((i + 1) * reach) <= sum + level <= (i + 1) * (reach - 1)) by (nonlinear_arith)
                requires
                    -(i * reach) <= sum <= i * (reach - 1),
                    -reach <= level <= reach - 1,
            ;
            assert((i + 1) * reach <= 0x8000_0000 * 0x1_0000) by (nonlinear_arith)
                requires
                    0 <= i < 0xffff,
                    0 < reach <= 0x8000_0000,
            ;
            assert((i + 1) * (reach - 1) <= 0x8000_0000 * 0x1_0000) by (nonlinear_arith)
                requires
                    0 <= i < 0xffff,
                    0 < reach <= 0x8000_0000,
            ;
        }
        sum = sum + level;
        i += 1;
    }
    assert(all.take(i as int) == all);
    proof {
        lemma_mean(sum as int, channels as int, reach);
    }
    let n = channels as i64;
    let mean = if sum >= 0 {
        sum / n
    } else {
        -((-sum) / n)
    };
    S::scale(mean)
}

/// The view of mixed samples.
pub open spec fn levels(v: Seq<i16>) -> Seq<int> {
    Seq::new(v.len(), |i: int| v[i] as int)
}

/// Mixes all channels down to one.
pub fn mix<S: PcmSample>(data: &Vec<S>, channels: usize) -> (r: Vec<i16>)
    requires
        1 <= channels <= 0xffff,
    ensures
        levels(r@) == mixed(data@, channels as int),
{
    let mut out: Vec<i16> = Vec::new();
    let total = data.len();
    let n = total / channels;
    let mut k: usize = 0;
    let mut from: usize = 0;
    while k < n
        invariant
            k <= n,
            total == data@.len(),
            n == total as int / channels as int,
            1 <= channels <= 0xffff,
            from == k * channels,
            out@.len() == k,
            forall|i: int|
                0 <= i < k ==> (#[trigger] out@[i]) as int == S::scaled(
                    quotient(level_sum(moment(data@, channels as int, i)), channels as int),
                ),
        decreases n - k,
    {
        proof {
            lemma_moment(data@.len() as int, channels as int, k as int);
        }
        out.push(mean_at(data, channels, from));
        from = from + channels;
        k += 1;
    }
    assert(levels(out@) =~= mixed(data@, channels as int));
    out
}

// ---- framing ----

/// The full frames at the front of samples.
pub open spec fn full_frames(s: Seq<i16>) -> Seq<Seq<i16>>
    decreases s.len(),
{
    if s.len() < FRAME_SAMPLES {
        Seq::empty()
    } else {
        seq![s.take(FRAME_SAMPLES as int)] + full_frames(s.skip(FRAME_SAMPLES as int))
    }
}

/// What is left behind the full frames.
pub open spec fn left_over(s: Seq<i16>) -> Seq<i16>
    decreases s.len(),
{
    if s.len() < FRAME_SAMPLES {
        s
    } else {
        left_over(s.skip(FRAME_SAMPLES as int))
    }
}

/// The views of a list of frames.
pub open spec fn frame_views(v: Seq<Vec<i16>>) -> Seq<Seq<i16>> {
    Seq::new(v.len(), |i: int| v[i]@)
}

/// Cuts samples into frames as they come.
pub struct Framer {
    buf: Vec<i16>,
}

impl Framer {
    /// The samples that wait for their frame to fill up.
    pub closed spec fn waiting(self) -> Seq<i16> {
        self.buf@
    }

    #[verifier::type_invariant]
    spec fn not_full(self) -> bool {
        self.buf@.len() < FRAME_SAMPLES
    }

    /// Nothing waits yet.
    pub fn new() -> (r: Framer)
        ensures
            r.waiting() == Seq::<i16>::empty(),
    {
        Framer { buf: Vec::new() }
    }

    /// Takes samples and gives the frames that they fill up.
    pub fn push(&mut self, samples: &Vec<i16>) -> (r: Vec<Vec<i16>>)
        ensures
            frame_views(r@) == full_frames(old(self).waiting() + samples@),
            final(self).waiting() == left_over(old(self).waiting() + samples@),
            final(self).waiting().len() < FRAME_SAMPLES,
    {
        proof {
            use_type_invariant(&*self);
        }
        let mut buf: Vec<i16> = Vec::new();
        std::mem::swap(&mut buf, &mut self.buf);
        let ghost start = buf@;
        let ghost all = start + samples@;
        let mut out: Vec<Vec<i16>> = Vec::new();
        let mut i: usize = 0;
        assert(buf@ + samples@.skip(0) =~= all);
        assert(frame_views(out@) + full_frames(all) =~= full_frames(all));
        while i < samples.len()
            invariant
                i <= samples.len(),
                all == start + samples@,
                buf@.len() < FRAME_SAMPLES,
                frame_views(out@) + full_frames(buf@ + samples@.skip(i as int)) == full_frames(all),
                left_over(buf@ + samples@.skip(i as int)) == left_over(all),
            decreases samples.len() - i,
        {
            let ghost before = buf@ + samples@.skip(i as int);
            buf.push(samples[i]);
            assert(buf@ + samples@.skip(i + 1) =~= before);
            if buf.len() == FRAME_SAMPLES {
                let ghost frame = buf@;
                let ghost done = frame_views(out@);
                assert(before.take(FRAME_SAMPLES as int) =~= frame);
                assert(before.skip(FRAME_SAMPLES as int) =~= samples@.skip(i + 1));
                let mut full: Vec<i16> = Vec::new();
                std::mem::swap(&mut full, &mut buf);
                out.push(full);
                assert(frame_views(out@) =~= done + seq![frame]);
                assert(buf@ + samples@.skip(i + 1) =~= samples@.skip(i + 1));
                assert(frame_views(out@) + full_frames(samples@.skip(i + 1)) =~= done + (seq![frame]
                    + full_frames(samples@.skip(i + 1))));
            }
            i += 1;
        }
        assert(buf@ + samples@.skip(i as int) =~= buf@);
        assert(frame_views(out@) + full_frames(buf@) =~= frame_views(out@));
        self.buf = buf;
        out
    }
}

/// All samples of frames, one frame after the other.
pub open spec fn unframed(frames: Seq<Seq<i16>>) -> Seq<i16>
    decreases frames.len(),
{
    if frames.len() == 0 {
        Seq::empty()
    } else {
        frames[0] + unframed(frames.drop_first())
    }
}

/// No sample is lost, doubled or moved, every frame is full, and less than a
/// frame waits.
pub proof fn framing_keeps_every_sample(s: Seq<i16>)
    ensures
        unframed(full_frames(s)) + left_over(s) == s,
        forall|i: int|
            0 <= i < full_frames(s).len() ==> (#[trigger] full_frames(s)[i]).len()
                == FRAME_SAMPLES,
        left_over(s).len() < FRAME_SAMPLES,
    decreases s.len(),
{
    if s.len() >= FRAME_SAMPLES {
        let head = s.take(FRAME_SAMPLES as int);
        let rest = s.skip(FRAME_SAMPLES as int);
        framing_keeps_every_sample(rest);
        let frames = full_frames(s);
        assert(frames[0] == head);
        assert(frames.drop_first() =~= full_frames(rest));
        assert(unframed(frames) + left_over(s) =~= head + (unframed(full_frames(rest)) + left_over(
            rest,
        )));
        assert(head + rest =~= s);
        assert forall|i: int| 0 <= i < frames.len() implies (#[trigger] frames[i]).len()
            == FRAME_SAMPLES by {
            if i > 0 {
                assert(frames[i] == full_frames(rest)[i - 1]);
            }
        }
    } else {
        assert(unframed(full_frames(s)) + left_over(s) =~= s);
    }
}

/// One channel is left as it is.
pub proof fn one_channel_stays(data: Seq<i16>)
    ensures
        mixed(data, 1) == levels(data),
{
    assert forall|k: int| 0 <= k < data.len() implies mixed(data, 1)[k] == levels(data)[k] by {
        let m = moment(data, 1, k);
        assert(m.len() == 1);
        assert(m[0] == data[k]);
        assert(m.drop_last() =~= Seq::<i16>::empty());
        assert(level_sum(m) == data[k] as int) by {
            reveal_with_fuel(level_sum, 2);
        }
        let sum = data[k] as int;
        assert(quotient(sum, 1) == sum) by {
            assert(sum / 1 == sum);
            assert((-sum) / 1 == -sum);
        }
        assert(data.len() / 1 == data.len());
    }
    assert(mixed(data, 1) =~= levels(data));
}

} // verus!
