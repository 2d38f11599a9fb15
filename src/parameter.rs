use vstd::prelude::*;

verus! {

/// Which physical quantity a control adjusts.
#[derive(Debug, Clone, Copy, PartialEq, Eq, Structural)]
pub enum ParameterType {
    Temp,
    Coupling,
    MagMoment,
    MagFieldStrength,
}

/// An exact non-negative fraction `num / den`.
#[derive(Debug, Clone, Copy, PartialEq, Eq, Structural)]
pub struct Ratio {
    pub num: u32,
    pub den: u32,
}

/// The mathematical content of a `Parameter`.
pub ghost struct ParameterModel {
    pub value: int,
    pub step: int,
    pub lower: int,
    pub upper: int,
    /// The largest scaled value, in thousandths.
    pub scaled_max_milli: int,
}

/// `m` after `increase_value(amount)`: applied only when it stays within the upper bound.
pub open spec fn increased(m: ParameterModel, amount: int) -> ParameterModel {
    if m.value + amount <= m.upper {
        ParameterModel { value: m.value + amount, ..m }
    } else {
        m
    }
}

/// `m` after `decrease_value(amount)`: applied only when it stays within the lower bound.
pub open spec fn decreased(m: ParameterModel, amount: int) -> ParameterModel {
    if m.value - amount >= m.lower {
        ParameterModel { value: m.value - amount, ..m }
    } else {
        m
    }
}

/// A bounded integer control mapped linearly onto a physical quantity:
/// `normalized = value / upper`, `scaled = normalized * scaled_max`.
#[derive(Debug)]
pub struct Parameter {
    value: u16,
    step: u16,
    bounds: (u16, u16),
    scaled_max_milli: u16,
}

impl View for Parameter {
    type V = ParameterModel;

    closed spec fn view(&self) -> ParameterModel {
        ParameterModel {
            value: self.value as int,
            step: self.step as int,
            lower: self.bounds.0 as int,
            upper: self.bounds.1 as int,
            scaled_max_milli: self.scaled_max_milli as int,
        }
    }
}

impl ParameterModel {
    /// The numerator of `scaled = value / upper * scaled_max_milli / 1000`.
    pub open spec fn scaled_num(self) -> int {
        self.value * self.scaled_max_milli
    }

    /// The denominator of `scaled = value / upper * scaled_max_milli / 1000`.
    pub open spec fn scaled_den(self) -> int {
        self.upper * 1000
    }

    pub open spec fn wf(self) -> bool {
        &&& self.lower <= self.value <= self.upper
        &&& 0 < self.upper <= u16::MAX
        &&& 0 <= self.lower
        &&& 0 <= self.step <= u16::MAX
        &&& 0 <= self.scaled_max_milli <= u16::MAX
    }
}

impl Parameter {
    pub open spec fn wf(&self) -> bool {
        self@.wf()
    }

    /// A control holding `value` within `bounds` (inclusive), adjusted in units of
    /// `step`, whose scaled value at `value == upper` is `scaled_max_milli / 1000`.
    pub fn new(value: u16, step: u16, bounds: (u16, u16), scaled_max_milli: u16) -> (r: Self)
        requires
            bounds.0 <= value <= bounds.1,
            0 < bounds.1,
        ensures
            r.wf(),
            r@ == (ParameterModel {
                value: value as int,
                step: step as int,
                lower: bounds.0 as int,
                upper: bounds.1 as int,
                scaled_max_milli: scaled_max_milli as int,
            }),
    {
        Parameter { value, step, bounds, scaled_max_milli }
    }

    /// Adds `amount` when the result stays at most `upper`; otherwise does nothing.
    pub fn increase_value(&mut self, amount: u16)
        requires
            old(self).wf(),
        ensures
            final(self).wf(),
            final(self)@ == increased(old(self)@, amount as int),
    {
        if amount <= self.bounds.1 && self.value <= self.bounds.1 - amount {
            self.value = self.value + amount;
        }
    }

    /// Subtracts `amount` when the result stays at least `lower`; otherwise does nothing.
    pub fn decrease_value(&mut self, amount: u16)
        requires
            old(self).wf(),
        ensures
            final(self).wf(),
            final(self)@ == decreased(old(self)@, amount as int),
    {
        if self.value - self.bounds.0 >= amount {
            self.value = self.value - amount;
        }
    }

    /// `value / upper`, exactly.
    pub fn normalized(&self) -> (r: Ratio)
        requires
            self.wf(),
        ensures
            r.num == self@.value,
            r.den == self@.upper,
    {
        Ratio { num: self.value as u32, den: self.bounds.1 as u32 }
    }

    /// `value / upper * scaled_max`, exactly: `(value * scaled_max_milli) / (upper * 1000)`.
    pub fn scaled(&self) -> (r: Ratio)
        requires
            self.wf(),
        ensures
            r.num == self@.scaled_num(),
            r.den == self@.scaled_den(),
    {
        let v = self.value as u32;
        let m = self.scaled_max_milli as u32;
        let u = self.bounds.1 as u32;
        assert(v * m <= u16::MAX * u16::MAX) by (nonlinear_arith)
            requires v <= u16::MAX, m <= u16::MAX;
        Ratio { num: v * m, den: u * 1000 }
    }

    /// The unit of fine adjustment.
    pub fn step(&self) -> (r: &u16)
        ensures
            *r == self@.step,
    {
        &self.step
    }
}

/// `m` after the operations `ops` in order: `(true, a)` stands for
/// `increase_value(a)` and `(false, a)` for `decrease_value(a)`.
pub open spec fn adjusted(m: ParameterModel, ops: Seq<(bool, u16)>) -> ParameterModel
    decreases ops.len(),
{
    if ops.len() == 0 {
        m
    } else {
        let last = ops.last();
        let prev = adjusted(m, ops.drop_last());
        if last.0 {
            increased(prev, last.1 as int)
        } else {
            decreased(prev, last.1 as int)
        }
    }
}

/// Any sequence of increases and decreases keeps `lower <= value <= upper`.
pub proof fn lemma_adjusted_within_bounds(m: ParameterModel, ops: Seq<(bool, u16)>)
    requires
        m.wf(),
    ensures
        adjusted(m, ops).wf(),
        m.lower <= adjusted(m, ops).value <= m.upper,
        adjusted(m, ops).lower == m.lower,
        adjusted(m, ops).upper == m.upper,
    decreases ops.len(),
{
    if ops.len() > 0 {
        lemma_adjusted_within_bounds(m, ops.drop_last());
    }
}

} // verus!
