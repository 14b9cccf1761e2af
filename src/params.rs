use vstd::prelude::*;

use crate::text::{ascii_chars, ascii_string, fixed_text, lemma_fixed_text_ascii, pow10, push_fixed};

verus! {

/// The fixed-point value that stands for 1.0: parameter values and samples are
/// held in millionths.
pub const UNIT: u32 = 1_000_000;

/// The smallest value a parameter holds (0.01); it keeps the DSP stage from
/// dividing by zero.
pub const MIN_VALUE: u32 = 10_000;

/// The largest value a parameter holds (1.0).
pub const MAX_VALUE: u32 = 1_000_000;

/// Decimal places of a percentage of a value in millionths.
pub const PERCENT_PLACES: u32 = 4;

/// `10^PERCENT_PLACES`.
pub const PERCENT_UNIT: u64 = 10_000;

/// `v` brought into the parameter domain `[MIN_VALUE, MAX_VALUE]`.
pub open spec fn clamp_value(v: int) -> int {
    if v < MIN_VALUE {
        MIN_VALUE as int
    } else if v > MAX_VALUE {
        MAX_VALUE as int
    } else {
        v
    }
}

/// The text a host shows for a value: the value as a percentage of 1.0.
pub open spec fn percent_text(value: int) -> Seq<char> {
    ascii_chars(fixed_text(value as nat, PERCENT_PLACES as nat))
}

/// What a parameter is: its name, its display unit and its current value.
pub struct ParamModel {
    pub name: Seq<char>,
    pub unit: Seq<char>,
    pub value: int,
}

/// The model after a host write of `v` to slot `i`: the slot holds `clamp_value(v)`,
/// everything else is kept.
pub open spec fn set_model(m: Seq<ParamModel>, i: int, v: int) -> Seq<ParamModel> {
    m.update(i, ParamModel { value: clamp_value(v), ..m[i] })
}

/// A parameter as declared when a store is built; `value` is clamped on entry.
pub struct Parameter {
    pub name: String,
    pub unit: String,
    pub value: i64,
}

#[derive(Debug, Clone, Copy, PartialEq, Eq, Structural)]
pub enum ParamError {
    OutOfRange,
}

/// The fixed-size, ordered set of automatable parameters, indexed by slot.
pub struct ParameterStore {
    names: Vec<String>,
    units: Vec<String>,
    values: Vec<u32>,
}

impl View for ParameterStore {
    type V = Seq<ParamModel>;

    closed spec fn view(&self) -> Seq<ParamModel> {
        Seq::new(
            self.values@.len(),
            |i: int|
                ParamModel {
                    name: self.names@[i]@,
                    unit: self.units@[i]@,
                    value: self.values@[i] as int,
                },
        )
    }
}

impl ParameterStore {
    /// The slot columns agree in length and every value lies in the parameter domain.
    pub closed spec fn wf(&self) -> bool {
        &&& self.names@.len() == self.values@.len()
        &&& self.units@.len() == self.values@.len()
        &&& forall|i: int|
            0 <= i < self.values@.len() ==> MIN_VALUE <= #[trigger] self.values@[i] <= MAX_VALUE
    }

    /// Builds a store with one slot per declaration, in order, each value clamped.
    pub fn new(decls: &Vec<Parameter>) -> (r: ParameterStore)
        ensures
            r.wf(),
            r@.len() == decls@.len(),
            forall|i: int|
                0 <= i < decls@.len() ==> #[trigger] r@[i] == (ParamModel {
                    name: decls@[i].name@,
                    unit: decls@[i].unit@,
                    value: clamp_value(decls@[i].value as int),
                }),
    {
        let mut names: Vec<String> = Vec::new();
        let mut units: Vec<String> = Vec::new();
        let mut values: Vec<u32> = Vec::new();
        let mut k: usize = 0;
        while k < decls.len()
            invariant
                k <= decls@.len(),
                names@.len() == k,
                units@.len() == k,
                values@.len() == k,
                forall|i: int| 0 <= i < k ==> #[trigger] names@[i]@ == decls@[i].name@,
                forall|i: int| 0 <= i < k ==> #[trigger] units@[i]@ == decls@[i].unit@,
                forall|i: int|
                    0 <= i < k ==> #[trigger] values@[i] == clamp_value(decls@[i].value as int),
            decreases decls@.len() - k,
        {
            let d = &decls[k];
            names.push(d.name.clone());
            units.push(d.unit.clone());
            values.push(clamp(d.value));
            k = k + 1;
        }
        let r = ParameterStore { names, units, values };
        assert forall|i: int| 0 <= i < r.values@.len() implies MIN_VALUE <= #[trigger] r.values@[i]
            <= MAX_VALUE by {
            assert(values@[i] == clamp_value(decls@[i].value as int));
        }
        assert forall|i: int| 0 <= i < decls@.len() implies #[trigger] r@[i] == (ParamModel {
            name: decls@[i].name@,
            unit: decls@[i].unit@,
            value: clamp_value(decls@[i].value as int),
        }) by {
            assert(r.names@[i]@ == decls@[i].name@);
        }
        r
    }

    /// Every value of a sound store lies in the parameter domain.
    pub proof fn lemma_values_in_range(&self)
        requires
            self.wf(),
        ensures
            forall|i: int|
                0 <= i < self@.len() ==> MIN_VALUE <= #[trigger] self@[i].value <= MAX_VALUE,
    {
        assert forall|i: int| 0 <= i < self@.len() implies MIN_VALUE <= #[trigger] self@[i].value
            <= MAX_VALUE by {
            assert(MIN_VALUE <= self.values@[i] <= MAX_VALUE);
        }
    }

    /// The number of slots, fixed for the store's lifetime.
    pub fn len(&self) -> (r: usize)
        ensures
            r == self@.len(),
    {
        self.values.len()
    }

    /// The value in slot `index`.
    pub fn get(&self, index: usize) -> (r: Result<u32, ParamError>)
        requires
            self.wf(),
        ensures
            index < self@.len() ==> r == Ok::<u32, ParamError>(self@[index as int].value as u32),
            index >= self@.len() ==> r == Err::<u32, ParamError>(ParamError::OutOfRange),
            r matches Ok(v) ==> MIN_VALUE <= v <= MAX_VALUE,
    {
        if index < self.values.len() {
            Ok(self.values[index])
        } else {
            Err(ParamError::OutOfRange)
        }
    }

    /// Stores `value` in slot `index`, clamped into the parameter domain.
    pub fn set(&mut self, index: usize, value: i64) -> (r: Result<(), ParamError>)
        requires
            old(self).wf(),
        ensures
            index < old(self)@.len() ==> r is Ok && final(self)@ == set_model(
                old(self)@,
                index as int,
                value as int,
            ),
            index >= old(self)@.len() ==> r == Err::<(), ParamError>(ParamError::OutOfRange)
                && final(self)@ == old(self)@,
            final(self).wf(),
    {
        if index < self.values.len() {
            let ghost before = self@;
            self.values.set(index, clamp(value));
            assert(self@ =~= set_model(before, index as int, value as int));
            Ok(())
        } else {
            Err(ParamError::OutOfRange)
        }
    }

    /// The name of slot `index`.
    pub fn name_of(&self, index: usize) -> (r: Result<String, ParamError>)
        requires
            self.wf(),
        ensures
            index < self@.len() ==> (r matches Ok(s) && s@ == self@[index as int].name),
            index >= self@.len() ==> (r matches Err(e) && e == ParamError::OutOfRange),
    {
        if index < self.names.len() {
            Ok(self.names[index].clone())
        } else {
            Err(ParamError::OutOfRange)
        }
    }

    /// The display unit of slot `index`.
    pub fn unit_of(&self, index: usize) -> (r: Result<String, ParamError>)
        requires
            self.wf(),
        ensures
            index < self@.len() ==> (r matches Ok(s) && s@ == self@[index as int].unit),
            index >= self@.len() ==> (r matches Err(e) && e == ParamError::OutOfRange),
    {
        if index < self.units.len() {
            Ok(self.units[index].clone())
        } else {
            Err(ParamError::OutOfRange)
        }
    }

    /// The value of slot `index` as a percentage of 1.0, in decimal.
    pub fn display_text_of(&self, index: usize) -> (r: Result<String, ParamError>)
        requires
            self.wf(),
        ensures
            index < self@.len() ==> (r matches Ok(s) && s@ == percent_text(
                self@[index as int].value,
            )),
            index >= self@.len() ==> (r matches Err(e) && e == ParamError::OutOfRange),
    {
        match self.get(index) {
            Ok(v) => Ok(percent_string(v)),
            Err(e) => Err(e),
        }
    }
}

/// `v` clamped into `[MIN_VALUE, MAX_VALUE]`.
pub fn clamp(v: i64) -> (r: u32)
    ensures
        r == clamp_value(v as int),
{
    if v < MIN_VALUE as i64 {
        MIN_VALUE
    } else if v > MAX_VALUE as i64 {
        MAX_VALUE
    } else {
        v as u32
    }
}

/// The percentage text of a value in millionths.
pub fn percent_string(value: u32) -> (r: String)
    ensures
        r@ == percent_text(value as int),
{
    let mut bytes: Vec<u8> = Vec::new();
    proof {
        reveal_with_fuel(pow10, 5);
    }
    push_fixed(value as u64, PERCENT_PLACES, PERCENT_UNIT, &mut bytes);
    proof {
        assert(bytes@ =~= fixed_text(value as nat, PERCENT_PLACES as nat));
        lemma_fixed_text_ascii(value as nat, PERCENT_PLACES as nat);
    }
    ascii_string(bytes)
}

/// A host write followed by a read of the same slot gives the written value
/// clamped into the parameter domain; the other slots keep their values.
pub proof fn law_set_then_get(m: Seq<ParamModel>, i: int, v: int)
    requires
        0 <= i < m.len(),
    ensures
        set_model(m, i, v).len() == m.len(),
        set_model(m, i, v)[i].value == clamp_value(v),
        MIN_VALUE <= set_model(m, i, v)[i].value <= MAX_VALUE,
        forall|j: int| 0 <= j < m.len() && j != i ==> #[trigger] set_model(m, i, v)[j] == m[j],
{
}

} // verus!
