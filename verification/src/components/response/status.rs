use vstd::prelude::*;

verus! {

/// The status line: the last response's status code, absent until the
/// first response arrives.
#[derive(Clone, Copy, Debug, PartialEq, Eq, Structural)]
pub struct Status {
    pub data: Option<u16>,
}

impl Status {
    /// No status yet.
    pub fn default() -> (r: Status)
        ensures
            r.data is None,
    {
        Status { data: None }
    }

    /// Record the status code of a completed call.
    pub fn set_data(&mut self, data: u16)
        ensures
            final(self).data == Some(data),
    {
        self.data = Some(data);
    }
}

} // verus!
