//! Resource discovery: listing the clip directory.
//!
//! What a directory holds depends on the machine's disk, so nothing is
//! claimed of the entry names themselves; the binding table validates the
//! list afterwards. What is verified here is the assembly: every path that
//! `read_dir` returns is the given directory path joined with one entry
//! name, with a separator inserted exactly where the directory path lacks
//! its trailing one.

use vstd::prelude::*;
use vstd::string::StrSliceExecFns;
use vstd::string::StringExecFns;

verus! {

/// The full path of a directory entry: the directory path, a separator where
/// one is missing, and the entry's name.
pub open spec fn spec_entry_path(dir: Seq<char>, name: Seq<char>) -> Seq<char> {
    if dir.len() > 0 && dir.last() == '/' {
        dir + name
    } else {
        dir + seq!['/'] + name
    }
}

/// Whether `full` is `dir` joined with some entry name.
pub open spec fn is_entry_path(dir: Seq<char>, full: Seq<char>) -> bool {
    exists|name: Seq<char>| full == spec_entry_path(dir, name)
}

/// Whether the path ends with the separator.
fn ends_with_separator(s: &str) -> (r: bool)
    ensures
        r == (s@.len() > 0 && s@.last() == '/'),
{
    let n = s.unicode_len();
    if n == 0 {
        false
    } else {
        s.get_char(n - 1) == '/'
    }
}

/// Joins a directory path and an entry name into the entry's full path.
pub fn entry_path(dir: &str, name: &str) -> (r: String)
    ensures
        r@ == spec_entry_path(dir@, name@),
{
    proof {
        reveal_strlit("/");
    }
    let mut full = dir.to_owned();
    if !ends_with_separator(dir) {
        full.append("/");
    }
    full.append(name);
    full
}

/// Names the entries of a directory, in the order the OS hands them out (no
/// order is promised). `None` when the directory cannot be read or one of
/// its entries cannot be examined.
///
/// Relies on `std::path::Path::read_dir` for the listing; each entry's bare
/// file name is carried over lossily as a string. What the directory holds
/// depends on the machine's disk, so nothing is claimed of the result.
#[verifier::external_body]
fn dir_entry_names(path: &str) -> (r: Option<Vec<String>>) {
    let entries = match std::path::Path::new(path).read_dir() {
        Ok(entries) => entries,
        Err(_) => return None,
    };
    let mut names: Vec<String> = Vec::new();
    for entry in entries {
        match entry {
            Ok(found) => names.push(found.file_name().to_string_lossy().into_owned()),
            Err(_) => return None,
        }
    }
    Some(names)
}

/// Lists a directory: the full path of each of its entries, each one the
/// directory path joined with that entry's name. `None` when the directory
/// cannot be read or one of its entries cannot be examined.
pub fn read_dir(path: &str) -> (r: Option<Vec<String>>)
    ensures
        match r {
            Some(paths) => forall|k: int|
                0 <= k < paths@.len() ==> is_entry_path(path@, #[trigger] paths@[k]@),
            None => true,
        },
{
    let names = match dir_entry_names(path) {
        Some(names) => names,
        None => return None,
    };
    let mut paths: Vec<String> = Vec::new();
    let mut i: usize = 0;
    while i < names.len()
        invariant
            i <= names@.len(),
            paths@.len() == i,
            forall|k: int| 0 <= k < i ==> is_entry_path(path@, #[trigger] paths@[k]@),
        decreases names@.len() - i,
    {
        let full = entry_path(path, names[i].as_str());
        paths.push(full);
        proof {
            assert(paths@[i as int]@ == spec_entry_path(path@, names@[i as int]@));
        }
        i = i + 1;
    }
    Some(paths)
}

} // verus!
