use vstd::prelude::*;

verus! {

/// The latency line: how long the last call took, in milliseconds, absent
/// until the first response arrives.
#[derive(Clone, Copy, Debug, PartialEq, Eq, Structural)]
pub struct Delay {
    pub data: Option<u64>,
}

impl Delay {
    /// No latency yet.
    pub fn default() -> (r: Delay)
        ensures
            r.data is None,
    {
        Delay { data: None }
    }

    /// Record the elapsed time of a completed call.
    pub fn set_data(&mut self, data: u64)
        ensures
            final(self).data == Some(data),
    {
        self.data = Some(data);
    }
}

} // verus!
