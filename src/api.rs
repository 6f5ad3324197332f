//! The remote service's own small interface.
use vstd::prelude::*;

verus! {

/// Port on which the remote service listens.
pub const API_PORT: u16 = 51411;

/// Calls that the remote service answers, each with a text or an error text.
pub trait Api {
    fn ping(&self) -> Result<String, String>;

    fn echo(&self, value: String) -> Result<String, String>;

    fn delay(&self, duration: u64) -> Result<String, String>;
}

} // verus!
