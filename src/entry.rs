//! The decisions of a module's entry harness: run the entry function on the
//! decoded arguments, and map its outcome to a status code.
use vstd::prelude::*;
use crate::args::{all_text, decode_args, same_text};
use crate::status::MainStatusCode;

verus! {

/// Runs the entry function `f` on the arguments `raw` and gives its status
/// code.
///
/// When every argument is valid UTF-8, `f` is called once, with the
/// arguments as text in their order, and its result is converted by
/// `to_status_code`. Otherwise `f` is not called and the panic status code
/// of `R` is returned, as for a panic of the entry function.
pub fn enter<F, R>(raw: &[Vec<u8>], f: F) -> (code: i32) where
    F: Fn(&[&str]) -> R,
    R: MainStatusCode,

    requires
        forall|a: &[&str]| f.requires((a,)),
    ensures
        all_text(raw@) ==> exists|a: &[&str], out: R|
            same_text(a@, raw@) && f.ensures((a,), out) && code == out.spec_status_code(),
        !all_text(raw@) ==> call_ensures(R::panic_status_code, (), code),
{
    match decode_args(raw) {
        Some(args) => {
            let out = f(args.as_slice());
            out.to_status_code()
        },
        None => R::panic_status_code(),
    }
}

/// The status code of an invocation: `caught` is the code that `enter`
/// returned, or `None` when the entry function panicked.
pub fn finish<R: MainStatusCode>(caught: Option<i32>) -> (r: i32)
    ensures
        caught matches Some(c) ==> r == c,
        caught is None ==> call_ensures(R::panic_status_code, (), r),
{
    match caught {
        Some(c) => c,
        None => R::panic_status_code(),
    }
}

} // verus!
