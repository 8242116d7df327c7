//! Runtime support for loadable flight-controller modules: the status-code
//! convention of a module's entry function, the decoding of the argument
//! vector handed over by the host, and the decisions of the entry harness.
pub mod args;
pub mod entry;
pub mod status;

pub use crate::args::decode_args;
pub use crate::entry::{enter, finish};
pub use crate::status::MainStatusCode;
