//! The decay-weighted average that every projection rests on.
//!
//! A history is ordered from the oldest sample to the most recent one. The
//! most recent sample has age 0 and weight 1; a sample of age `a` has the
//! weight `decay^a`. The power is multiplied up in binary128 and rounded to
//! binary64 once, so that it is the nearest number to the exact power but in
//! rare cases. Under a decay of at least zero and below one every older
//! sample weighs less than the most recent one.

use crate::number::{Num, Wide};
use vstd::prelude::*;

verus! {

/// The power `decay^age` for an age of one and more, with room for its
/// digits.
pub open spec fn wide_power(decay: Num, age: nat) -> Wide
    decreases age,
{
    if age <= 1 {
        decay.spec_widen()
    } else {
        wide_power(decay, (age - 1) as nat).spec_times(decay.spec_widen())
    }
}

/// Whether a decay makes older samples fade: it is at least zero and below
/// one.
pub open spec fn fades(decay: Num) -> bool {
    Num::spec_zero().spec_le(decay) && decay.spec_lt(Num::spec_one())
}

/// The weight of a sample of the given age: `decay^age`, with `decay^0 = 1`
/// whatever the decay is. The power of a fading decay is below one; should
/// the arithmetic ever give one that is not, the decay itself is the weight,
/// so that the most recent sample weighs most whatever the arithmetic gives.
pub open spec fn weight(decay: Num, age: nat) -> Num {
    if age == 0 {
        Num::spec_one()
    } else {
        let power = wide_power(decay, age).spec_narrow();
        if fades(decay) && !power.spec_lt(Num::spec_one()) {
            decay
        } else {
            power
        }
    }
}

/// The sum of the samples, added up from the oldest on, starting at `+0.0`.
pub open spec fn total(samples: Seq<Num>) -> Num
    decreases samples.len(),
{
    if samples.len() == 0 {
        Num::spec_zero()
    } else {
        total(samples.drop_last()).spec_plus(samples.last())
    }
}

/// The unweighted arithmetic mean of a history.
pub open spec fn mean(samples: Seq<Num>) -> Num {
    total(samples).spec_over(Num::spec_of_int(samples.len() as int))
}

/// The sum of `sample * weight` over the `k` oldest samples.
pub open spec fn weighted_total(samples: Seq<Num>, decay: Num, k: nat) -> Num
    decreases k,
{
    if k == 0 {
        Num::spec_zero()
    } else {
        weighted_total(samples, decay, (k - 1) as nat).spec_plus(
            samples[k - 1].spec_times(weight(decay, (samples.len() - k) as nat)),
        )
    }
}

/// The sum of the weights of the `k` oldest of `n` samples.
pub open spec fn weight_total(n: nat, decay: Num, k: nat) -> Num
    decreases k,
{
    if k == 0 {
        Num::spec_zero()
    } else {
        weight_total(n, decay, (k - 1) as nat).spec_plus(weight(decay, (n - k) as nat))
    }
}

/// Whether the decay asks for the plain mean: `decay >= 1.0`.
pub open spec fn is_pure(decay: Num) -> bool {
    Num::spec_one().spec_le(decay)
}

/// The weighted average of a history: `+0.0` when it is empty, the plain mean
/// when the decay is at least one, else `Σ(sample·weight) / Σ(weight)`.
pub open spec fn weighted_average(samples: Seq<Num>, decay: Num) -> Num {
    if samples.len() == 0 {
        Num::spec_zero()
    } else if is_pure(decay) {
        mean(samples)
    } else {
        weighted_total(samples, decay, samples.len()).spec_over(
            weight_total(samples.len(), decay, samples.len()),
        )
    }
}

/// Whether a decay asks for the plain mean.
pub fn pure_average(decay: Num) -> (r: bool)
    ensures
        r == is_pure(decay),
{
    Num::one().le(decay)
}

/// The weights of the ages `0..n`.
pub fn weights(decay: Num, n: usize) -> (w: Vec<Num>)
    ensures
        w@.len() == n,
        forall|age: int| 0 <= age < n ==> w@[age] == weight(decay, age as nat),
{
    let mut w: Vec<Num> = Vec::new();
    if n == 0 {
        return w;
    }
    w.push(Num::one());
    let fading: bool = Num::zero().le(decay) && decay.lt(Num::one());
    let factor: Wide = decay.widen();
    let mut power: Wide = factor;
    let mut age: usize = 1;
    while age < n
        invariant
            1 <= age <= n,
            w@.len() == age,
            factor == decay.spec_widen(),
            fading == fades(decay),
            power == wide_power(decay, age as nat),
            forall|a: int| 0 <= a < age ==> w@[a] == weight(decay, a as nat),
        decreases n - age,
    {
        let rounded: Num = power.narrow();
        if fading && !rounded.lt(Num::one()) {
            w.push(decay);
        } else {
            w.push(rounded);
        }
        power = power.times(factor);
        age += 1;
    }
    w
}

/// The sum of the samples, from the oldest on.
pub fn sum(values: &Vec<Num>) -> (r: Num)
    ensures
        r == total(values@),
{
    let mut acc: Num = Num::zero();
    let mut i: usize = 0;
    while i < values.len()
        invariant
            i <= values.len(),
            acc == total(values@.take(i as int)),
        decreases values.len() - i,
    {
        assert(values@.take(i + 1).drop_last() =~= values@.take(i as int));
        acc = acc.plus(values[i]);
        i += 1;
    }
    assert(values@.take(values.len() as int) =~= values@);
    acc
}

/// The decay-weighted average of a history.
pub fn weighted_avg(values: &Vec<Num>, decay: Num) -> (r: Num)
    ensures
        r == weighted_average(values@, decay),
{
    let n: usize = values.len();
    if n == 0 {
        return Num::zero();
    }
    if pure_average(decay) {
        return sum(values).over(Num::of_usize(n));
    }
    let w: Vec<Num> = weights(decay, n);
    let mut weighted_sum: Num = Num::zero();
    let mut weight_sum: Num = Num::zero();
    let mut i: usize = 0;
    while i < n
        invariant
            i <= n,
            n == values@.len(),
            w@.len() == n,
            forall|age: int| 0 <= age < n ==> w@[age] == weight(decay, age as nat),
            weighted_sum == weighted_total(values@, decay, i as nat),
            weight_sum == weight_total(n as nat, decay, i as nat),
        decreases n - i,
    {
        let wt: Num = w[n - 1 - i];
        weighted_sum = weighted_sum.plus(values[i].times(wt));
        weight_sum = weight_sum.plus(wt);
        i += 1;
    }
    weighted_sum.over(weight_sum)
}

} // verus!
