use vstd::prelude::*;

verus! {

/// A static one-line usage hint; it holds no state and ignores input.
pub struct HelpMessage {}

} // verus!
