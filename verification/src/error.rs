use vstd::prelude::*;

verus! {

/// Signals returned by the decoder adapter. `MoreDataNeeded` is a polling
/// signal rather than a failure: it tells the caller to submit another packet
/// before asking for a frame again.
#[derive(Clone, Copy, Debug, PartialEq, Eq)]
pub enum Error {
    /// State needed for the operation is missing: extradata was never stored
    /// before configuration, or a packet was submitted before configuration.
    ConfigurationIncomplete,
    /// Malformed extradata, malformed header bytes, or a packet the engine
    /// could not decode; all such causes collapse to this one kind.
    InvalidData,
    /// The pending-frame queue is empty; another packet must be submitted.
    MoreDataNeeded,
}

} // verus!
