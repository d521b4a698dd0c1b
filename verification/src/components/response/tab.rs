use vstd::prelude::*;

verus! {

/// The tab strip over the response views; it holds no state of its own,
/// the selected tab lives on the response container.
#[derive(Clone, Copy, Debug, PartialEq, Eq, Structural)]
pub struct Tab {}

impl Tab {
    pub fn default() -> (r: Tab) {
        Tab {  }
    }
}

} // verus!
