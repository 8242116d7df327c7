//! The return type of a module's entry function, and how it becomes the
//! integer status code that the host sees.
use vstd::prelude::*;

verus! {

/// The return type of a module's entry function.
///
/// Implement it for a type of your own to choose how its values, and a
/// panic of the entry function, map to a status code.
pub trait MainStatusCode: Sized {
    /// The status code that `to_status_code` gives for this value.
    ///
    /// An implementation that is verified defines it; the default states
    /// nothing about the value.
    open spec fn spec_status_code(self) -> i32 {
        arbitrary()
    }

    /// The status code to return.
    fn to_status_code(self) -> (r: i32)
        ensures
            r == self.spec_status_code(),
    ;

    /// The status code to return in case of a panic.
    ///
    /// −1 by default.
    fn panic_status_code() -> (r: i32)
        default_ensures
            r == -1,
    {
        -1
    }
}

/// Returns 0.
impl MainStatusCode for () {
    open spec fn spec_status_code(self) -> i32 {
        0
    }

    fn to_status_code(self) -> (r: i32) {
        0
    }
}

/// Returns the `i32` itself.
impl MainStatusCode for i32 {
    open spec fn spec_status_code(self) -> i32 {
        self
    }

    fn to_status_code(self) -> (r: i32) {
        self
    }
}

/// Returns 0 for `Ok`, and 1 for `Err`.
impl MainStatusCode for Result<(), ()> {
    open spec fn spec_status_code(self) -> i32 {
        match self {
            Ok(()) => 0,
            Err(()) => 1,
        }
    }

    fn to_status_code(self) -> (r: i32) {
        match self {
            Ok(()) => 0,
            Err(()) => 1,
        }
    }
}

/// Returns 0 for `Ok`, and the `i32` itself for `Err`.
impl MainStatusCode for Result<(), i32> {
    open spec fn spec_status_code(self) -> i32 {
        match self {
            Ok(()) => 0,
            Err(s) => s,
        }
    }

    fn to_status_code(self) -> (r: i32) {
        match self {
            Ok(()) => 0,
            Err(s) => s,
        }
    }
}

/// Every built-in return type maps to its status code as documented: unit
/// to 0, an integer to itself, `Ok` to 0, `Err(())` to 1 and `Err(code)`
/// to `code`; and none of them changes the default panic status of −1.
pub proof fn lemma_builtin_status_codes(k: i32)
    ensures
        ().spec_status_code() == 0,
        k.spec_status_code() == k,
        Ok::<(), ()>(()).spec_status_code() == 0,
        Err::<(), ()>(()).spec_status_code() == 1,
        Ok::<(), i32>(()).spec_status_code() == 0,
        Err::<(), i32>(k).spec_status_code() == k,
        forall|r: i32| call_ensures(<() as MainStatusCode>::panic_status_code, (), r) ==> r == -1,
        forall|r: i32| call_ensures(<i32 as MainStatusCode>::panic_status_code, (), r) ==> r == -1,
        forall|r: i32|
            call_ensures(<Result<(), ()> as MainStatusCode>::panic_status_code, (), r) ==> r == -1,
        forall|r: i32|
            call_ensures(<Result<(), i32> as MainStatusCode>::panic_status_code, (), r) ==> r
                == -1,
{
}

} // verus!
