use vstd::prelude::*;

verus! {

/// The smaller of `a` and `b`.
pub open spec fn min_int(a: int, b: int) -> int {
    if a <= b {
        a
    } else {
        b
    }
}

/// The absolute value of `x`.
pub open spec fn abs_int(x: int) -> int {
    if x >= 0 {
        x
    } else {
        -x
    }
}

/// The soft-clip stage on one sample, in fixed point: the magnitude is limited
/// to `threshold`, scaled so that `threshold` maps to `gain`, and the sign is kept.
/// The division rounds the magnitude down.
pub open spec fn shape(x: int, threshold: int, gain: int) -> int {
    if x >= 0 {
        min_int(x, threshold) * gain / threshold
    } else {
        -(min_int(-x, threshold) * gain / threshold)
    }
}

/// Processes one sample: `min(x, t) / t * g` for `x >= 0`, `max(x, -t) / t * g` otherwise.
pub fn process_sample(x: i32, threshold: u32, gain: u32) -> (r: i64)
    requires
        threshold > 0,
    ensures
        r == shape(x as int, threshold as int, gain as int),
        abs_int(r as int) <= gain,
{
    let magnitude: u64 = if x >= 0 {
        x as u64
    } else {
        (-(x as i64)) as u64
    };
    let t = threshold as u64;
    let g = gain as u64;
    let limited: u64 = if magnitude <= t {
        magnitude
    } else {
        t
    };
    proof {
        assert(limited * g <= t * g) by (nonlinear_arith)
            requires
                limited <= t,
        ;
        assert(t * g <= 0xffff_ffff * 0xffff_ffff) by (nonlinear_arith)
            requires
                t <= 0xffff_ffff,
                g <= 0xffff_ffff,
        ;
        lemma_scaled_at_most_gain(limited as int, t as int, g as int);
    }
    let scaled = limited * g / t;
    if x >= 0 {
        scaled as i64
    } else {
        -(scaled as i64)
    }
}

proof fn lemma_scaled_at_most_gain(m: int, t: int, g: int)
    requires
        0 <= m <= t,
        t > 0,
        g >= 0,
    ensures
        0 <= m * g / t <= g,
{
    assert(0 <= m * g <= t * g) by (nonlinear_arith)
        requires
            0 <= m <= t,
            g >= 0,
    ;
    vstd::arithmetic::div_mod::lemma_div_is_ordered(m * g, t * g, t);
    vstd::arithmetic::div_mod::lemma_div_multiples_vanish(g, t);
    vstd::arithmetic::div_mod::lemma_div_pos_is_pos(m * g, t);
    assert(t * g == g * t) by (nonlinear_arith);
}

/// Processes one channel: each output sample that pairs with an input sample
/// becomes the shaped input; the rest of the output is left as it was.
pub fn process_channel(input: &Vec<i32>, output: &mut Vec<i32>, threshold: u32, gain: u32)
    requires
        threshold > 0,
        gain <= i32::MAX,
    ensures
        final(output)@.len() == old(output)@.len(),
        forall|i: int|
            0 <= i < final(output)@.len() ==> #[trigger] final(output)@[i] == if i < input@.len() {
                shape(input@[i] as int, threshold as int, gain as int)
            } else {
                old(output)@[i] as int
            },
{
    let n = if input.len() < output.len() {
        input.len()
    } else {
        output.len()
    };
    let mut i: usize = 0;
    while i < n
        invariant
            n <= input@.len(),
            n <= output@.len(),
            n == input@.len() || n == output@.len(),
            i <= n,
            threshold > 0,
            gain <= i32::MAX,
            output@.len() == old(output)@.len(),
            forall|j: int|
                0 <= j < output@.len() ==> #[trigger] output@[j] == if j < i {
                    shape(input@[j] as int, threshold as int, gain as int)
                } else {
                    old(output)@[j] as int
                },
        decreases n - i,
    {
        let y = process_sample(input[i], threshold, gain);
        output.set(i, y as i32);
        i = i + 1;
    }
}

/// Processes paired input and output channels; output channels without an
/// input channel are left as they were.
pub fn process_buffers(
    inputs: &Vec<Vec<i32>>,
    outputs: &mut Vec<Vec<i32>>,
    threshold: u32,
    gain: u32,
)
    requires
        threshold > 0,
        gain <= i32::MAX,
    ensures
        final(outputs)@.len() == old(outputs)@.len(),
        forall|c: int|
            0 <= c < final(outputs)@.len() ==> (#[trigger] final(outputs)@[c])@.len() == old(outputs)@[c]@.len(),
        forall|c: int, i: int|
            0 <= c < final(outputs)@.len() && 0 <= i < old(outputs)@[c]@.len() ==> #[trigger] final(outputs)@[c]@[i] == if c < inputs@.len() && i < inputs@[c]@.len() {
                shape(inputs@[c]@[i] as int, threshold as int, gain as int)
            } else {
                old(outputs)@[c]@[i] as int
            },
{
    let mut c: usize = 0;
    while c < outputs.len()
        invariant
            c <= outputs@.len(),
            threshold > 0,
            gain <= i32::MAX,
            outputs@.len() == old(outputs)@.len(),
            forall|d: int|
                0 <= d < outputs@.len() ==> (#[trigger] outputs@[d])@.len() == old(outputs)@[d]@.len(),
            forall|d: int, i: int|
                0 <= d < outputs@.len() && 0 <= i < old(outputs)@[d]@.len() ==> #[trigger] outputs@[d]@[i]
                    == if d < c && d < inputs@.len() && i < inputs@[d]@.len() {
                    shape(inputs@[d]@[i] as int, threshold as int, gain as int)
                } else {
                    old(outputs)@[d]@[i] as int
                },
        decreases old(outputs)@.len() - c,
    {
        if c < inputs.len() {
            process_channel(&inputs[c], &mut outputs[c], threshold, gain);
        }
        c = c + 1;
    }
}

/// The hard-clip law of the stage: the sign of the input is kept (or the output
/// is zero); an input within the threshold comes out no larger than the gain;
/// an input at or beyond the threshold comes out at exactly the gain.
pub proof fn law_shape_saturates(x: int, threshold: int, gain: int)
    requires
        threshold > 0,
        gain >= 0,
    ensures
        x > 0 ==> shape(x, threshold, gain) >= 0,
        x < 0 ==> shape(x, threshold, gain) <= 0,
        x == 0 ==> shape(x, threshold, gain) == 0,
        abs_int(x) <= threshold ==> abs_int(shape(x, threshold, gain)) <= gain,
        abs_int(x) >= threshold ==> abs_int(shape(x, threshold, gain)) == gain,
{
    let m = min_int(abs_int(x), threshold);
    lemma_scaled_at_most_gain(m, threshold, gain);
    if abs_int(x) >= threshold {
        vstd::arithmetic::div_mod::lemma_div_multiples_vanish(gain, threshold);
        assert(threshold * gain == gain * threshold) by (nonlinear_arith);
    }
    if x == 0 {
        assert(0 * gain == 0);
    }
}

} // verus!
