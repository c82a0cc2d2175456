use vstd::prelude::*;

verus! {

/// Which of the three roles a process plays.
#[derive(Clone, Copy, Debug, PartialEq, Eq, Structural)]
pub enum Mode {
    Client,
    ClientLoadSimulator,
    Server,
}

} // verus!
