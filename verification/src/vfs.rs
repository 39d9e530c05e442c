//! Status codes of the engine's virtual file system.

use vstd::prelude::*;
use vstd::string::StringExecFns;

verus! {

/// Status with which the engine reports that a file was stored.
pub const ADD_OK: i32 = 0;

/// Status with which the engine reports that no slot is left.
pub const ADD_FULL: i32 = 1;

/// Status with which the engine reports that the name is taken.
pub const ADD_REPEATED: i32 = 2;

/// Status with which the engine reports that no file has the name.
pub const DELETE_MISSING: i32 = -1;

/// Why a file could not be added to the virtual file system.
#[derive(Debug, PartialEq, Eq, Clone, Copy, Hash, Structural)]
pub enum AddError {
    /// Every slot of the file system is taken.
    VfsFull,
    /// A file of that name is already there.
    RepeatedName,
}

impl AddError {
    /// The words that name the error.
    pub open spec fn words(self) -> Seq<char> {
        match self {
            AddError::VfsFull => "VfsFull"@,
            AddError::RepeatedName => "RepeatedName"@,
        }
    }

    /// The error's name as text.
    pub fn describe(&self) -> (text: String)
        ensures
            text@ == self.words(),
    {
        match self {
            AddError::VfsFull => String::from_str("VfsFull"),
            AddError::RepeatedName => String::from_str("RepeatedName"),
        }
    }
}

/// Whether `status` is one that adding a file can end with.
pub open spec fn is_add_status(status: i32) -> bool {
    status == ADD_OK || status == ADD_FULL || status == ADD_REPEATED
}

/// Whether `status` is one that adding a file can end with.
pub fn is_known_add_status(status: i32) -> (known: bool)
    ensures
        known == is_add_status(status),
{
    status == ADD_OK || status == ADD_FULL || status == ADD_REPEATED
}

/// What a status of adding a file means.
pub open spec fn add_outcome(status: i32) -> Result<(), AddError> {
    if status == ADD_FULL {
        Err(AddError::VfsFull)
    } else if status == ADD_REPEATED {
        Err(AddError::RepeatedName)
    } else {
        Ok(())
    }
}

/// Reads the status that adding a file ended with.
pub fn add_result(status: i32) -> (outcome: Result<(), AddError>)
    requires
        is_add_status(status),
    ensures
        outcome == add_outcome(status),
        outcome.is_ok() <==> status == ADD_OK,
{
    if status == ADD_FULL {
        Err(AddError::VfsFull)
    } else if status == ADD_REPEATED {
        Err(AddError::RepeatedName)
    } else {
        Ok(())
    }
}

/// Reads the status that deleting a file ended with: whether a file of that
/// name was there.
pub fn delete_found(status: i32) -> (found: bool)
    ensures
        found == (status != DELETE_MISSING),
{
    status != DELETE_MISSING
}

} // verus!
