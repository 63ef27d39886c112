//! The persistent cell behind a variable or an array element: every sample
//! that was ever pushed, and the projection that turns them into a value.

use crate::ast::Type;
use crate::average::{is_pure, pure_average, weight, weight_total, weighted_average, weighted_avg, weights};
use crate::number::Num;
use crate::text::{chars_of, is_scalar, string_of};
use crate::value::{Value, ValueView};
use vstd::prelude::*;

verus! {

/// A variable's accumulated samples.
///
/// Numbers, booleans and text are kept apart: numbers average arithmetically,
/// booleans by the share of `true`, and text position by position.
#[derive(Debug)]
pub struct BlurValue {
    pub var_type: Type,
    /// Numeric samples, oldest first.
    pub history: Vec<Num>,
    /// Boolean samples, oldest first.
    pub bool_history: Vec<bool>,
    /// For each position of a text, the characters seen there, oldest first.
    pub string_history: Vec<Vec<char>>,
    /// A sharp cell forgets its samples on every push.
    pub sharp: bool,
}

/// The mathematical content of a [`BlurValue`].
pub struct BlurView {
    pub var_type: Type,
    pub history: Seq<Num>,
    pub bool_history: Seq<bool>,
    pub string_history: Seq<Seq<char>>,
    pub sharp: bool,
}

impl View for BlurValue {
    type V = BlurView;

    open spec fn view(&self) -> BlurView {
        BlurView {
            var_type: self.var_type,
            history: self.history@,
            bool_history: self.bool_history@,
            string_history: positions_view(self.string_history@),
            sharp: self.sharp,
        }
    }
}

/// The per-position histories of a text cell as sequences.
pub open spec fn positions_view(positions: Seq<Vec<char>>) -> Seq<Seq<char>> {
    Seq::new(positions.len(), |i: int| positions[i]@)
}

/// How far a text reaches among its first `k` characters: one past its last
/// character that is no space, or zero.
pub open spec fn reach(text: Seq<char>, k: nat) -> nat
    decreases k,
{
    if k == 0 {
        0
    } else if text[k - 1] != ' ' {
        k
    } else {
        reach(text, (k - 1) as nat)
    }
}

/// A text reaches no further than it was read, and holds only spaces from
/// there on.
pub proof fn lemma_reach_bound(text: Seq<char>, k: nat)
    ensures
        reach(text, k) <= k,
        forall|j: int| reach(text, k) <= j < k ==> text[j] == ' ',
    decreases k,
{
    if k > 0 {
        lemma_reach_bound(text, (k - 1) as nat);
    }
}

/// The per-position histories after the first `k` characters of `text` were
/// blended in: each character that is no space is appended to the history of
/// its position, a space leaves its position alone, and positions are added
/// as far as the text reaches.
pub open spec fn blend(start: Seq<Seq<char>>, text: Seq<char>, k: nat) -> Seq<Seq<char>> {
    let len = if start.len() >= reach(text, k) {
        start.len()
    } else {
        reach(text, k)
    };
    Seq::new(
        len,
        |i: int|
            {
                let before = if i < start.len() {
                    start[i]
                } else {
                    Seq::<char>::empty()
                };
                if i < k && text[i] != ' ' {
                    before.push(text[i])
                } else {
                    before
                }
            },
    )
}

/// The number of `true` samples.
pub open spec fn count_true(samples: Seq<bool>) -> nat
    decreases samples.len(),
{
    if samples.len() == 0 {
        0
    } else {
        count_true(samples.drop_last()) + if samples.last() {
            1nat
        } else {
            0nat
        }
    }
}

/// The sum of the weights of the `true` samples among the `k` oldest.
pub open spec fn true_weight_total(samples: Seq<bool>, decay: Num, k: nat) -> Num
    decreases k,
{
    if k == 0 {
        Num::spec_zero()
    } else {
        let rest = true_weight_total(samples, decay, (k - 1) as nat);
        if samples[k - 1] {
            rest.spec_plus(weight(decay, (samples.len() - k) as nat))
        } else {
            rest
        }
    }
}

/// The projection of a boolean history: whether the weighted share of `true`
/// is at least one half. Without decay the share is compared exactly.
pub open spec fn bool_projection(samples: Seq<bool>, decay: Num) -> bool {
    if samples.len() == 0 {
        false
    } else if is_pure(decay) {
        2 * count_true(samples) >= samples.len()
    } else {
        Num::spec_half().spec_le(
            true_weight_total(samples, decay, samples.len()).spec_over(
                weight_total(samples.len(), decay, samples.len()),
            ),
        )
    }
}

/// The sum of the character codes.
pub open spec fn code_total(samples: Seq<char>) -> nat
    decreases samples.len(),
{
    if samples.len() == 0 {
        0
    } else {
        code_total(samples.drop_last()) + samples.last() as u32 as nat
    }
}

/// The character codes as numbers.
pub open spec fn codes(samples: Seq<char>) -> Seq<Num> {
    Seq::new(samples.len(), |i: int| Num::spec_of_int(samples[i] as u32 as int))
}

/// The character of a code, or a space where the code is no character.
pub open spec fn char_of_code(code: int) -> char {
    if is_scalar(code) {
        code as char
    } else {
        ' '
    }
}

/// The projection of one text position: a space while nothing was seen there,
/// else the character whose code is the ceiling of the weighted average of the
/// codes seen. Without decay the ceiling is taken of the exact mean.
pub open spec fn position_projection(samples: Seq<char>, decay: Num) -> char {
    if samples.len() == 0 {
        ' '
    } else if is_pure(decay) {
        char_of_code((code_total(samples) + samples.len() - 1) / (samples.len() as int))
    } else {
        char_of_code(
            weighted_average(codes(samples), decay).spec_ceil().spec_trunc(0, u32::MAX as int),
        )
    }
}

/// The projection of a text history: its positions' projections in order.
pub open spec fn string_projection(positions: Seq<Seq<char>>, decay: Num) -> Seq<char> {
    Seq::new(positions.len(), |i: int| position_projection(positions[i], decay))
}

impl BlurView {
    /// A cell without samples.
    pub open spec fn fresh(var_type: Type, sharp: bool) -> BlurView {
        BlurView {
            var_type,
            history: Seq::empty(),
            bool_history: Seq::empty(),
            string_history: Seq::empty(),
            sharp,
        }
    }

    /// The cell after a numeric sample was pushed.
    pub open spec fn pushed(self, sample: Num) -> BlurView {
        BlurView {
            history: if self.sharp {
                seq![sample]
            } else {
                self.history.push(sample)
            },
            ..self
        }
    }

    /// The cell after a boolean sample was pushed.
    pub open spec fn pushed_bool(self, sample: bool) -> BlurView {
        BlurView {
            bool_history: if self.sharp {
                seq![sample]
            } else {
                self.bool_history.push(sample)
            },
            ..self
        }
    }

    /// The cell after a text was pushed.
    pub open spec fn pushed_string(self, text: Seq<char>) -> BlurView {
        BlurView {
            string_history: blend(
                if self.sharp {
                    Seq::empty()
                } else {
                    self.string_history
                },
                text,
                text.len(),
            ),
            ..self
        }
    }

    /// The cell after a text was pushed `times` times over.
    pub open spec fn pushed_string_times(self, text: Seq<char>, times: nat) -> BlurView
        decreases times,
    {
        if times == 0 {
            self
        } else {
            self.pushed_string_times(text, (times - 1) as nat).pushed_string(text)
        }
    }

    /// How many samples count for the cell's type: the boolean ones of a
    /// boolean cell, else the numeric ones.
    pub open spec fn sample_count(self) -> nat {
        match self.var_type {
            Type::Bool => self.bool_history.len(),
            _ => self.history.len(),
        }
    }

    /// The weighted average of the numeric samples, whatever the cell's type.
    pub open spec fn raw(self, decay: Num) -> Num {
        weighted_average(self.history, decay)
    }

    /// The value that the cell shows under a decay. An integer cell shows the
    /// ceiling of the average of its numbers, and zero without samples; a
    /// float cell the average itself; a boolean cell whether the share of
    /// `true` is at least one half; a character cell the character whose code
    /// is the ceiling of the average, a space where that is no code of a
    /// character, and NUL without samples; a text cell the projections of its
    /// positions. A cell of any other type shows void.
    pub open spec fn projection(self, decay: Num) -> ValueView {
        match self.var_type {
            Type::Int => if self.history.len() == 0 {
                ValueView::Int(0)
            } else {
                ValueView::Int(
                    self.raw(decay).spec_ceil().spec_trunc(i64::MIN as int, i64::MAX as int) as i64,
                )
            },
            Type::Float => ValueView::Float(self.raw(decay)),
            Type::Bool => ValueView::Bool(bool_projection(self.bool_history, decay)),
            Type::Char => if self.history.len() == 0 {
                ValueView::Char('\0')
            } else {
                ValueView::Char(
                    char_of_code(self.raw(decay).spec_ceil().spec_trunc(0, u32::MAX as int)),
                )
            },
            Type::String => ValueView::String(string_projection(self.string_history, decay)),
            Type::Void => ValueView::Void,
            Type::Array(_, _) => ValueView::Void,
        }
    }
}

/// The projection of a boolean history.
pub fn project_bool(samples: &Vec<bool>, decay: Num) -> (r: bool)
    ensures
        r == bool_projection(samples@, decay),
{
    let n: usize = samples.len();
    if n == 0 {
        return false;
    }
    if pure_average(decay) {
        let mut trues: usize = 0;
        let mut i: usize = 0;
        while i < n
            invariant
                i <= n,
                n == samples@.len(),
                trues <= i,
                trues == count_true(samples@.take(i as int)),
            decreases n - i,
        {
            assert(samples@.take(i + 1).drop_last() =~= samples@.take(i as int));
            if samples[i] {
                trues += 1;
            }
            i += 1;
        }
        assert(samples@.take(n as int) =~= samples@);
        return trues >= n - trues;
    }
    let w: Vec<Num> = weights(decay, n);
    let mut weighted_true: Num = Num::zero();
    let mut weight_sum: Num = Num::zero();
    let mut i: usize = 0;
    while i < n
        invariant
            i <= n,
            n == samples@.len(),
            w@.len() == n,
            forall|age: int| 0 <= age < n ==> w@[age] == weight(decay, age as nat),
            weighted_true == true_weight_total(samples@, decay, i as nat),
            weight_sum == weight_total(n as nat, decay, i as nat),
        decreases n - i,
    {
        let wt: Num = w[n - 1 - i];
        if samples[i] {
            weighted_true = weighted_true.plus(wt);
        }
        weight_sum = weight_sum.plus(wt);
        i += 1;
    }
    Num::half().le(weighted_true.over(weight_sum))
}

/// The character of a code, or a space where the code is no character.
pub fn decode(code: u128) -> (r: char)
    ensures
        r == char_of_code(code as int),
{
    if code > 0x10FFFF {
        return ' ';
    }
    match char::from_u32(code as u32) {
        Some(c) => c,
        None => ' ',
    }
}

/// The projection of one text position.
pub fn project_position(samples: &Vec<char>, decay: Num) -> (r: char)
    ensures
        r == position_projection(samples@, decay),
{
    let n: usize = samples.len();
    if n == 0 {
        return ' ';
    }
    if pure_average(decay) {
        let mut sum: u128 = 0;
        let mut i: usize = 0;
        while i < n
            invariant
                i <= n,
                n == samples@.len(),
                sum == code_total(samples@.take(i as int)),
                sum <= i * 0xFFFF_FFFF,
            decreases n - i,
        {
            assert(samples@.take(i + 1).drop_last() =~= samples@.take(i as int));
            let c: char = samples[i];
            let code: u32 = c as u32;
            sum = sum + code as u128;
            i += 1;
        }
        assert(samples@.take(n as int) =~= samples@);
        return decode((sum + (n as u128) - 1) / (n as u128));
    }
    let mut values: Vec<Num> = Vec::new();
    let mut i: usize = 0;
    while i < n
        invariant
            i <= n,
            n == samples@.len(),
            values@.len() == i,
            forall|j: int| 0 <= j < i ==> values@[j] == Num::spec_of_int(samples@[j] as u32 as int),
        decreases n - i,
    {
        let c: char = samples[i];
        let code: u32 = c as u32;
        values.push(Num::of_i64(code as i64));
        i += 1;
    }
    assert(values@ =~= codes(samples@));
    decode(weighted_avg(&values, decay).ceil().to_u32() as u128)
}

impl BlurValue {
    /// An empty cell of a type, that accumulates.
    pub fn new(var_type: Type) -> (r: BlurValue)
        ensures
            r@ == BlurView::fresh(var_type, false),
    {
        let r = BlurValue {
            var_type,
            history: Vec::new(),
            bool_history: Vec::new(),
            string_history: Vec::new(),
            sharp: false,
        };
        assert(r@.string_history =~= Seq::<Seq<char>>::empty());
        r
    }

    /// An empty cell of a type, that keeps only its last sample.
    pub fn new_sharp(var_type: Type) -> (r: BlurValue)
        ensures
            r@ == BlurView::fresh(var_type, true),
    {
        let r = BlurValue {
            var_type,
            history: Vec::new(),
            bool_history: Vec::new(),
            string_history: Vec::new(),
            sharp: true,
        };
        assert(r@.string_history =~= Seq::<Seq<char>>::empty());
        r
    }

    /// An accumulating cell that holds one numeric sample.
    pub fn new_with_value(var_type: Type, value: Num) -> (r: BlurValue)
        ensures
            r@ == BlurView::fresh(var_type, false).pushed(value),
    {
        let mut r = BlurValue::new(var_type);
        r.push(value);
        r
    }

    /// An accumulating boolean cell that holds one sample.
    pub fn new_bool(value: bool) -> (r: BlurValue)
        ensures
            r@ == BlurView::fresh(Type::Bool, false).pushed_bool(value),
    {
        let mut r = BlurValue::new(Type::Bool);
        r.push_bool(value);
        r
    }

    /// Records a numeric sample; a sharp cell drops what it held.
    pub fn push(&mut self, value: Num)
        ensures
            final(self)@ == old(self)@.pushed(value),
    {
        if self.sharp {
            self.history.clear();
        }
        self.history.push(value);
        assert(self@.history =~= old(self)@.pushed(value).history);
    }

    /// Records a boolean sample; a sharp cell drops what it held.
    pub fn push_bool(&mut self, value: bool)
        ensures
            final(self)@ == old(self)@.pushed_bool(value),
    {
        if self.sharp {
            self.bool_history.clear();
        }
        self.bool_history.push(value);
        assert(self@.bool_history =~= old(self)@.pushed_bool(value).bool_history);
    }

    /// Blends a text into the cell, position by position: a character that is
    /// no space joins the history of its position, a space leaves its position
    /// as it is. A sharp cell drops what it held first.
    pub fn push_string(&mut self, s: &str)
        ensures
            final(self)@ == old(self)@.pushed_string(s@),
    {
        if self.sharp {
            self.string_history.clear();
        }
        let ghost start: Seq<Seq<char>> = self@.string_history;
        let text: Vec<char> = chars_of(s);
        assert(start =~= if old(self).sharp {
            Seq::<Seq<char>>::empty()
        } else {
            old(self)@.string_history
        });
        let mut i: usize = 0;
        assert(self@.string_history =~= blend(start, text@, 0));
        while i < text.len()
            invariant
                i <= text.len(),
                self.var_type == old(self).var_type,
                self.history == old(self).history,
                self.bool_history == old(self).bool_history,
                self.sharp == old(self).sharp,
                self@.string_history == blend(start, text@, i as nat),
            decreases text.len() - i,
        {
            let c: char = text[i];
            if c != ' ' {
                while self.string_history.len() <= i
                    invariant
                        i < text.len(),
                        self.var_type == old(self).var_type,
                        self.history == old(self).history,
                        self.bool_history == old(self).bool_history,
                        self.sharp == old(self).sharp,
                        self.string_history@.len() >= blend(start, text@, i as nat).len(),
                        self.string_history@.len() <= i + 1 || self.string_history@.len() == blend(
                            start,
                            text@,
                            i as nat,
                        ).len(),
                        forall|j: int|
                            0 <= j < self.string_history@.len() ==> #[trigger] self.string_history@[j]@
                                == if j < blend(start, text@, i as nat).len() {
                                blend(start, text@, i as nat)[j]
                            } else {
                                Seq::<char>::empty()
                            },
                    decreases i + 1 - self.string_history.len(),
                {
                    self.string_history.push(Vec::new());
                }
                let ghost before: Seq<Vec<char>> = self.string_history@;
                self.string_history[i].push(c);
                assert(self.string_history@.len() == before.len());
                assert(forall|j: int|
                    0 <= j < before.len() && j != i ==> self.string_history@[j] == before[j]);
                assert(self.string_history@[i as int]@ == before[i as int]@.push(c));
                proof {
                    lemma_reach_bound(text@, i as nat);
                    let target = blend(start, text@, (i + 1) as nat);
                    let prior = blend(start, text@, i as nat);
                    assert(reach(text@, (i + 1) as nat) == i + 1);
                    assert(target.len() == self@.string_history.len());
                    assert forall|j: int| 0 <= j < target.len() implies target[j]
                        == self@.string_history[j] by {
                        if j != i {
                            assert(self.string_history@[j] == before[j]);
                            assert(self@.string_history[j] == before[j]@);
                        } else {
                            assert(self@.string_history[j] == before[j]@.push(c));
                        }
                    }
                }
                assert(self@.string_history =~= blend(start, text@, (i + 1) as nat));
            } else {
                assert(self@.string_history =~~= blend(start, text@, (i + 1) as nat));
            }
            i += 1;
        }
    }

    /// Blends the same text in `times` times over.
    pub fn push_string_times(&mut self, s: &str, times: usize)
        ensures
            final(self)@ == old(self)@.pushed_string_times(s@, times as nat),
    {
        let mut n: usize = 0;
        while n < times
            invariant
                n <= times,
                self@ == old(self)@.pushed_string_times(s@, n as nat),
            decreases times - n,
        {
            self.push_string(s);
            n += 1;
        }
    }

    /// How many samples count for the cell's type.
    pub fn sample_count(&self) -> (r: usize)
        ensures
            r == self@.sample_count(),
    {
        match &self.var_type {
            Type::Bool => self.bool_history.len(),
            _ => self.history.len(),
        }
    }

    /// The weighted average of the numeric samples, without the rounding of
    /// the cell's type.
    pub fn get_raw(&self, decay: Num) -> (r: Num)
        ensures
            r == self@.raw(decay),
    {
        weighted_avg(&self.history, decay)
    }

    /// The value that the cell shows under a decay: the projection of its
    /// samples by the rule of its type.
    pub fn get(&self, decay: Num) -> (r: Value)
        ensures
            r@ == self@.projection(decay),
    {
        match &self.var_type {
            Type::Int => {
                if self.history.len() == 0 {
                    Value::Int(0)
                } else {
                    Value::Int(weighted_avg(&self.history, decay).ceil().to_i64())
                }
            },
            Type::Float => Value::Float(weighted_avg(&self.history, decay)),
            Type::Bool => Value::Bool(project_bool(&self.bool_history, decay)),
            Type::Char => {
                if self.history.len() == 0 {
                    Value::Char('\0')
                } else {
                    Value::Char(decode(weighted_avg(&self.history, decay).ceil().to_u32() as u128))
                }
            },
            Type::String => {
                let mut out: Vec<char> = Vec::new();
                let mut i: usize = 0;
                while i < self.string_history.len()
                    invariant
                        i <= self.string_history@.len(),
                        out@.len() == i,
                        forall|j: int|
                            0 <= j < i ==> out@[j] == position_projection(
                                self.string_history@[j]@,
                                decay,
                            ),
                    decreases self.string_history.len() - i,
                {
                    out.push(project_position(&self.string_history[i], decay));
                    i += 1;
                }
                let text = string_of(&out);
                assert(text@ =~= string_projection(self@.string_history, decay));
                Value::String(text)
            },
            Type::Void => Value::Void,
            Type::Array(_, _) => Value::Void,
        }
    }

    /// A copy of the cell with all of its samples.
    pub fn duplicate(&self) -> (r: BlurValue)
        ensures
            r@ == self@,
    {
        let mut history: Vec<Num> = Vec::new();
        let mut i: usize = 0;
        while i < self.history.len()
            invariant
                i <= self.history@.len(),
                history@ == self.history@.take(i as int),
            decreases self.history.len() - i,
        {
            history.push(self.history[i]);
            assert(self.history@.take(i as int).push(self.history@[i as int]) =~= self.history@.take(
                i + 1,
            ));
            i += 1;
        }
        assert(self.history@.take(self.history@.len() as int) =~= self.history@);
        let mut bool_history: Vec<bool> = Vec::new();
        let mut i: usize = 0;
        while i < self.bool_history.len()
            invariant
                i <= self.bool_history@.len(),
                bool_history@ == self.bool_history@.take(i as int),
            decreases self.bool_history.len() - i,
        {
            bool_history.push(self.bool_history[i]);
            assert(self.bool_history@.take(i as int).push(self.bool_history@[i as int])
                =~= self.bool_history@.take(i + 1));
            i += 1;
        }
        assert(self.bool_history@.take(self.bool_history@.len() as int) =~= self.bool_history@);
        let mut string_history: Vec<Vec<char>> = Vec::new();
        let mut i: usize = 0;
        while i < self.string_history.len()
            invariant
                i <= self.string_history@.len(),
                string_history@.len() == i,
                forall|j: int| 0 <= j < i ==> string_history@[j]@ == self.string_history@[j]@,
            decreases self.string_history.len() - i,
        {
            let position: &Vec<char> = &self.string_history[i];
            let mut copy: Vec<char> = Vec::new();
            let mut k: usize = 0;
            while k < position.len()
                invariant
                    k <= position@.len(),
                    copy@ == position@.take(k as int),
                decreases position.len() - k,
            {
                copy.push(position[k]);
                assert(position@.take(k as int).push(position@[k as int]) =~= position@.take(k + 1));
                k += 1;
            }
            assert(position@.take(position@.len() as int) =~= position@);
            string_history.push(copy);
            i += 1;
        }
        let r = BlurValue {
            var_type: self.var_type.duplicate(),
            history,
            bool_history,
            string_history,
            sharp: self.sharp,
        };
        assert(r@.string_history =~= self@.string_history);
        r
    }
}

} // verus!
