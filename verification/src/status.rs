//! The engine's closed set of status values and their numeric codes.

use vstd::prelude::*;

verus! {

/// A status reported by the hooking engine.
#[must_use]
#[derive(Debug, Clone, Copy, PartialEq, Eq, Structural)]
pub enum MH_STATUS {
    /// Unknown error. The engine should never report it.
    MH_UNKNOWN,
    /// Successful.
    MH_OK,
    /// The engine is already initialized.
    MH_ERROR_ALREADY_INITIALIZED,
    /// The engine is not initialized yet, or already uninitialized.
    MH_ERROR_NOT_INITIALIZED,
    /// The hook for the specified target function is already created.
    MH_ERROR_ALREADY_CREATED,
    /// The hook for the specified target function is not created yet.
    MH_ERROR_NOT_CREATED,
    /// The hook for the specified target function is already enabled.
    MH_ERROR_ENABLED,
    /// The hook for the specified target function is not enabled yet, or
    /// already disabled.
    MH_ERROR_DISABLED,
    /// The specified address lies in a region that is not allocated or not
    /// executable.
    MH_ERROR_NOT_EXECUTABLE,
    /// The specified target function cannot be hooked.
    MH_ERROR_UNSUPPORTED_FUNCTION,
    /// Failed to allocate memory.
    MH_ERROR_MEMORY_ALLOC,
    /// Failed to change the memory protection.
    MH_ERROR_MEMORY_PROTECT,
    /// The specified module is not loaded.
    MH_ERROR_MODULE_NOT_FOUND,
    /// The specified function is not found.
    MH_ERROR_FUNCTION_NOT_FOUND,
}

impl MH_STATUS {
    /// The number that the engine uses for this status: -1 for the unknown
    /// sentinel, 0 for success, and 1 to 12 for the errors in declaration
    /// order.
    pub open spec fn spec_code(self) -> int {
        match self {
            MH_STATUS::MH_UNKNOWN => -1,
            MH_STATUS::MH_OK => 0,
            MH_STATUS::MH_ERROR_ALREADY_INITIALIZED => 1,
            MH_STATUS::MH_ERROR_NOT_INITIALIZED => 2,
            MH_STATUS::MH_ERROR_ALREADY_CREATED => 3,
            MH_STATUS::MH_ERROR_NOT_CREATED => 4,
            MH_STATUS::MH_ERROR_ENABLED => 5,
            MH_STATUS::MH_ERROR_DISABLED => 6,
            MH_STATUS::MH_ERROR_NOT_EXECUTABLE => 7,
            MH_STATUS::MH_ERROR_UNSUPPORTED_FUNCTION => 8,
            MH_STATUS::MH_ERROR_MEMORY_ALLOC => 9,
            MH_STATUS::MH_ERROR_MEMORY_PROTECT => 10,
            MH_STATUS::MH_ERROR_MODULE_NOT_FOUND => 11,
            MH_STATUS::MH_ERROR_FUNCTION_NOT_FOUND => 12,
        }
    }

    /// The status that a number stands for. Every number outside the closed
    /// set stands for the unknown sentinel.
    pub open spec fn spec_from_code(code: int) -> MH_STATUS {
        if code == 0 {
            MH_STATUS::MH_OK
        } else if code == 1 {
            MH_STATUS::MH_ERROR_ALREADY_INITIALIZED
        } else if code == 2 {
            MH_STATUS::MH_ERROR_NOT_INITIALIZED
        } else if code == 3 {
            MH_STATUS::MH_ERROR_ALREADY_CREATED
        } else if code == 4 {
            MH_STATUS::MH_ERROR_NOT_CREATED
        } else if code == 5 {
            MH_STATUS::MH_ERROR_ENABLED
        } else if code == 6 {
            MH_STATUS::MH_ERROR_DISABLED
        } else if code == 7 {
            MH_STATUS::MH_ERROR_NOT_EXECUTABLE
        } else if code == 8 {
            MH_STATUS::MH_ERROR_UNSUPPORTED_FUNCTION
        } else if code == 9 {
            MH_STATUS::MH_ERROR_MEMORY_ALLOC
        } else if code == 10 {
            MH_STATUS::MH_ERROR_MEMORY_PROTECT
        } else if code == 11 {
            MH_STATUS::MH_ERROR_MODULE_NOT_FOUND
        } else if code == 12 {
            MH_STATUS::MH_ERROR_FUNCTION_NOT_FOUND
        } else {
            MH_STATUS::MH_UNKNOWN
        }
    }

    /// The engine's number for this status.
    pub fn code(self) -> (c: i32)
        ensures
            c == self.spec_code(),
    {
        match self {
            MH_STATUS::MH_UNKNOWN => -1,
            MH_STATUS::MH_OK => 0,
            MH_STATUS::MH_ERROR_ALREADY_INITIALIZED => 1,
            MH_STATUS::MH_ERROR_NOT_INITIALIZED => 2,
            MH_STATUS::MH_ERROR_ALREADY_CREATED => 3,
            MH_STATUS::MH_ERROR_NOT_CREATED => 4,
            MH_STATUS::MH_ERROR_ENABLED => 5,
            MH_STATUS::MH_ERROR_DISABLED => 6,
            MH_STATUS::MH_ERROR_NOT_EXECUTABLE => 7,
            MH_STATUS::MH_ERROR_UNSUPPORTED_FUNCTION => 8,
            MH_STATUS::MH_ERROR_MEMORY_ALLOC => 9,
            MH_STATUS::MH_ERROR_MEMORY_PROTECT => 10,
            MH_STATUS::MH_ERROR_MODULE_NOT_FOUND => 11,
            MH_STATUS::MH_ERROR_FUNCTION_NOT_FOUND => 12,
        }
    }

    /// The status that the engine means by a number. A number that the
    /// engine never legitimately reports becomes the unknown sentinel.
    pub fn from_code(code: i32) -> (s: MH_STATUS)
        ensures
            s == Self::spec_from_code(code as int),
    {
        match code {
            0 => MH_STATUS::MH_OK,
            1 => MH_STATUS::MH_ERROR_ALREADY_INITIALIZED,
            2 => MH_STATUS::MH_ERROR_NOT_INITIALIZED,
            3 => MH_STATUS::MH_ERROR_ALREADY_CREATED,
            4 => MH_STATUS::MH_ERROR_NOT_CREATED,
            5 => MH_STATUS::MH_ERROR_ENABLED,
            6 => MH_STATUS::MH_ERROR_DISABLED,
            7 => MH_STATUS::MH_ERROR_NOT_EXECUTABLE,
            8 => MH_STATUS::MH_ERROR_UNSUPPORTED_FUNCTION,
            9 => MH_STATUS::MH_ERROR_MEMORY_ALLOC,
            10 => MH_STATUS::MH_ERROR_MEMORY_PROTECT,
            11 => MH_STATUS::MH_ERROR_MODULE_NOT_FOUND,
            12 => MH_STATUS::MH_ERROR_FUNCTION_NOT_FOUND,
            _ => MH_STATUS::MH_UNKNOWN,
        }
    }

    /// `Ok(())` for the success status, and the status itself as the error
    /// for every other one.
    pub fn ok(self) -> (r: Result<(), MH_STATUS>)
        ensures
            self == MH_STATUS::MH_OK ==> r == Ok::<(), MH_STATUS>(()),
            self != MH_STATUS::MH_OK ==> r == Err::<(), MH_STATUS>(self),
    {
        if self == MH_STATUS::MH_OK {
            Ok(())
        } else {
            Err(self)
        }
    }
}

/// Every status is recovered from its own number: the mapping between the
/// engine's numbers and the statuses loses nothing.
pub proof fn lemma_status_code_round_trip(status: MH_STATUS)
    ensures
        -1 <= status.spec_code() <= 12,
        MH_STATUS::spec_from_code(status.spec_code()) == status,
{
}

/// A number in the engine's closed set is the number of the status it stands
/// for; every other number stands for the unknown sentinel, and for no
/// success.
pub proof fn lemma_code_status_round_trip(code: int)
    ensures
        -1 <= code <= 12 ==> MH_STATUS::spec_from_code(code).spec_code() == code,
        !(-1 <= code <= 12) ==> MH_STATUS::spec_from_code(code) == MH_STATUS::MH_UNKNOWN,
        MH_STATUS::spec_from_code(code) == MH_STATUS::MH_OK <==> code == 0,
{
}

} // verus!
