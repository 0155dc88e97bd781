use vstd::prelude::*;
use vstd::string::StringExecFns;

verus! {

/// The plain acknowledgment the HTTP surface answers with.
#[derive(Debug, Clone)]
pub struct SimpleDataResult {
    pub code: u8,
    pub message: String,
}

impl Default for SimpleDataResult {
    fn default() -> (r: Self)
        ensures
            r.code == 1,
    {
        SimpleDataResult { code: 1, message: String::from_str("success") }
    }
}

} // verus!
