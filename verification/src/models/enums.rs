use vstd::prelude::*;

verus! {

/// The platform whose build of the game app a client presents itself as.
#[derive(Debug, Clone, Copy, PartialEq, Eq, Structural)]
pub enum Platform {
    Android,
    Ios,
}

/// The game server region that a client talks to.
#[derive(Debug, Clone, Copy, PartialEq, Eq, Structural)]
pub enum Server {
    Japan,
    Global,
}

} // verus!
