//! The device registry rules: resolving the operator's choice against the
//! enumerated output-device names, and finding the chosen device again at
//! playback time.
//!
//! Enumeration itself queries the host audio subsystem and is done by the
//! shell, once per run; the core only receives the ordered name list.

use vstd::prelude::*;

use crate::errors::ConfigError;

verus! {

/// Resolves the operator's 1-indexed device choice: number `k` picks the
/// `k`-th enumerated name. Zero, or a number past the end of the list, is an
/// invalid selection and no device is chosen.
pub fn resolve(names: &Vec<String>, selection: usize) -> (r: Result<&String, ConfigError>)
    ensures
        match r {
            Ok(name) => {
                &&& 1 <= selection <= names@.len()
                &&& name@ == names@[selection as int - 1]@
            },
            Err(e) => {
                &&& e == ConfigError::InvalidSelection
                &&& (selection == 0 || selection > names@.len())
            },
        },
{
    if selection == 0 || selection > names.len() {
        Err(ConfigError::InvalidSelection)
    } else {
        Ok(&names[selection - 1])
    }
}

/// Finds the selected device again among the names enumerated at playback
/// time: the first position carrying the selected name. `None` means the
/// device has gone away since it was chosen.
pub fn find_by_name(names: &Vec<String>, target: &String) -> (r: Option<usize>)
    ensures
        match r {
            Some(i) => {
                &&& (i as int) < names@.len()
                &&& names@[i as int]@ == target@
                &&& forall|j: int| 0 <= j < i ==> names@[j]@ != target@
            },
            None => forall|j: int| 0 <= j < names@.len() ==> names@[j]@ != target@,
        },
{
    let n = names.len();
    let mut i: usize = 0;
    while i < n
        invariant
            i <= n,
            n == names@.len(),
            forall|j: int| 0 <= j < i ==> names@[j]@ != target@,
        decreases n - i,
    {
        if names[i] == *target {
            return Some(i);
        }
        i = i + 1;
    }
    None
}

} // verus!
