//! The binding table: the fixed mapping from discovered audio clips to the
//! digit-row keyspace.
//!
//! Resource `i` of the ordered discovery list lands at slot `i`, and slot `i`
//! is fired by the digit key `(i + 1) % 10`: the physical keyboard row runs
//! 1, 2, ..., 9, 0, so the tenth slot sits under the `0` key. The table is
//! built once at startup and immutable thereafter.

use vstd::prelude::*;

use crate::errors::ConfigError;

verus! {

/// Greatest number of clips the digit-row keyspace can hold.
pub const MAX_SLOTS: usize = 10;

/// The digit key that fires a slot: the row runs 1..9 and then 0, so slot 0
/// maps to digit 1 and slot 9 maps to digit 0.
pub open spec fn spec_digit_for_slot(slot: int) -> int {
    (slot + 1) % 10
}

/// Executable form of the slot-to-digit rule.
pub fn digit_for_slot(slot: usize) -> (digit: u8)
    requires
        slot < MAX_SLOTS,
    ensures
        digit == spec_digit_for_slot(slot as int),
{
    if slot == 9 {
        0
    } else {
        (slot + 1) as u8
    }
}

/// One immutable association of a slot with its digit key and its clip.
pub struct Binding {
    /// Fixed position in the digit-row keyspace.
    pub slot: usize,
    /// Digit key (0..=9) under which this slot sits.
    pub digit: u8,
    /// Path of the audio resource this slot plays.
    pub resource: String,
}

/// Well-formedness of a binding sequence: it fills the keyspace in order,
/// binding `i` at slot `i` under the digit the keyboard row dictates.
pub open spec fn bindings_wf(bindings: Seq<Binding>) -> bool {
    &&& 1 <= bindings.len() <= MAX_SLOTS
    &&& forall|i: int| 0 <= i < bindings.len() ==> (#[trigger] bindings[i]).slot == i
    &&& forall|i: int|
        0 <= i < bindings.len() ==> (#[trigger] bindings[i]).digit == spec_digit_for_slot(i)
}

/// The slot -> clip table, built once from the discovery list.
pub struct BindingTable {
    bindings: Vec<Binding>,
}

impl View for BindingTable {
    type V = Seq<Binding>;

    closed spec fn view(&self) -> Seq<Binding> {
        self.bindings@
    }
}

impl BindingTable {
    /// Well-formedness of the table: see `bindings_wf`.
    pub open spec fn wf(&self) -> bool {
        bindings_wf(self@)
    }

    /// Builds the table from the ordered list of discovered resources:
    /// resource `i` is bound at slot `i` under digit key `(i + 1) % 10`.
    /// An empty list and a list longer than the keyspace are fatal
    /// configuration errors: no table exists, so no hotkey registration can
    /// follow from them.
    pub fn build(resources: &Vec<String>) -> (r: Result<BindingTable, ConfigError>)
        ensures
            match r {
                Ok(table) => {
                    &&& 1 <= resources@.len() <= MAX_SLOTS
                    &&& table.wf()
                    &&& table@.len() == resources@.len()
                    &&& forall|i: int|
                        0 <= i < resources@.len() ==> (#[trigger] table@[i]).resource@
                            == resources@[i]@
                    &&& forall|i: int, j: int|
                        0 <= i < j < table@.len() ==> table@[i].slot != table@[j].slot
                },
                Err(e) => {
                    &&& (e == ConfigError::NoResources <==> resources@.len() == 0)
                    &&& (e == ConfigError::TooManyResources <==> resources@.len() > MAX_SLOTS)
                    &&& e != ConfigError::InvalidSelection
                },
            },
    {
        if resources.len() == 0 {
            return Err(ConfigError::NoResources);
        }
        if resources.len() > MAX_SLOTS {
            return Err(ConfigError::TooManyResources);
        }
        let mut bindings: Vec<Binding> = Vec::new();
        let mut i: usize = 0;
        while i < resources.len()
            invariant
                i <= resources@.len(),
                1 <= resources@.len() <= MAX_SLOTS,
                bindings@.len() == i,
                forall|k: int| 0 <= k < i ==> (#[trigger] bindings@[k]).slot == k,
                forall|k: int|
                    0 <= k < i ==> (#[trigger] bindings@[k]).digit == spec_digit_for_slot(k),
                forall|k: int|
                    0 <= k < i ==> (#[trigger] bindings@[k]).resource@ == resources@[k]@,
            decreases resources@.len() - i,
        {
            let digit = digit_for_slot(i);
            let resource = resources[i].clone();
            bindings.push(Binding { slot: i, digit, resource });
            i = i + 1;
        }
        Ok(BindingTable { bindings })
    }

    /// Number of occupied slots.
    pub fn len(&self) -> (n: usize)
        ensures
            n == self@.len(),
    {
        self.bindings.len()
    }

    /// The binding at one slot.
    pub fn binding(&self, slot: usize) -> (b: &Binding)
        requires
            slot < self@.len(),
        ensures
            *b == self@[slot as int],
    {
        &self.bindings[slot]
    }
}

} // verus!
