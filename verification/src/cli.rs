//! Scan parameters as the command line hands them over.

use vstd::prelude::*;

verus! {

/// The run's inputs: the extended public key string, the start index,
/// the end index (zero means unbounded), and the unused-address
/// threshold.
pub struct Args {
    pub pubkey: String,
    pub start: u32,
    pub end: u32,
    pub unused_threshold: u32,
}

impl Args {
    /// The optional end bound of the scan: a zero end index means the
    /// scan is unbounded above.
    pub fn end_index(&self) -> (r: Option<u32>)
        ensures
            r == (if self.end == 0 {
                Option::<u32>::None
            } else {
                Option::Some(self.end)
            }),
    {
        if self.end == 0 {
            Option::None
        } else {
            Option::Some(self.end)
        }
    }
}

} // verus!
