//! What is to be done for an entry, and what is said about it.

use vstd::prelude::*;
use vstd::string::StringExecFns;

verus! {

/// One step in bringing an entry into being.
#[derive(Clone, Copy, Debug, PartialEq, Eq, Structural)]
pub enum Operation {
    /// Create the directory at the entry's path, with every ancestor that is missing.
    CreateDirectory,
    /// Create every missing ancestor of the entry's path.
    CreateParents,
    /// Create an empty file at the entry's path.
    CreateFile,
}

/// The steps for an entry, in the order in which they are taken. An entry whose path
/// exists, as whatever it may be, takes none. A directory takes one. A file takes two:
/// its ancestors come first.
pub open spec fn planned(exists: bool, is_directory: bool) -> Seq<Operation> {
    if exists {
        Seq::empty()
    } else if is_directory {
        seq![Operation::CreateDirectory]
    } else {
        seq![Operation::CreateParents, Operation::CreateFile]
    }
}

/// What is reported once an entry has been created. Nothing is reported for an entry
/// whose path existed.
pub open spec fn notice_text(exists: bool, is_directory: bool, path: Seq<char>) -> Option<
    Seq<char>,
> {
    if exists {
        None
    } else if is_directory {
        Some("Created directory: "@ + path)
    } else {
        Some("Created file: "@ + path)
    }
}

/// What is reported when `operation` fails on `path`.
pub open spec fn failure_text(operation: Operation, path: Seq<char>) -> Seq<char> {
    match operation {
        Operation::CreateDirectory => "Failed to create directory: "@ + path,
        Operation::CreateParents => "Failed to create parent directory: "@ + path,
        Operation::CreateFile => "Failed to create file: "@ + path,
    }
}

/// The steps to take for an entry, given whether its path exists.
pub fn plan_entry(exists: bool, is_directory: bool) -> (steps: Vec<Operation>)
    ensures
        steps@ == planned(exists, is_directory),
{
    let mut steps: Vec<Operation> = Vec::new();
    if !exists {
        if is_directory {
            steps.push(Operation::CreateDirectory);
        } else {
            steps.push(Operation::CreateParents);
            steps.push(Operation::CreateFile);
        }
    }
    assert(steps@ =~= planned(exists, is_directory));
    steps
}

/// The line to report for an entry at `path` once its steps are done.
pub fn creation_notice(exists: bool, is_directory: bool, path: &str) -> (notice: Option<String>)
    ensures
        notice is Some == notice_text(exists, is_directory, path@) is Some,
        notice is Some ==> notice->0@ == notice_text(exists, is_directory, path@)->0,
{
    if exists {
        None
    } else if is_directory {
        Some(String::from_str("Created directory: ").concat(path))
    } else {
        Some(String::from_str("Created file: ").concat(path))
    }
}

/// The message for a failure of `operation` on `path`.
pub fn failure_message(operation: Operation, path: &str) -> (message: String)
    ensures
        message@ == failure_text(operation, path@),
{
    match operation {
        Operation::CreateDirectory => String::from_str("Failed to create directory: ").concat(
            path,
        ),
        Operation::CreateParents => String::from_str("Failed to create parent directory: ").concat(
            path,
        ),
        Operation::CreateFile => String::from_str("Failed to create file: ").concat(path),
    }
}

} // verus!
