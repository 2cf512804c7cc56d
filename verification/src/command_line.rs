use vstd::prelude::*;

verus! {

/// Which voice a console line speaks in. The terminal front end maps
/// each kind to a colour of its own; the engine only says which kind a
/// statement is.
#[derive(Clone, Copy, Debug, PartialEq, Eq, Structural)]
pub enum PrintCommand {
    AICall,
    UnitTest,
    Issue,
}

} // verus!
