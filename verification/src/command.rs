//! Hooking the engine's operations into a host shell.
//!
//! A host that exposes the engine — a windowed shell, a command-line front
//! end — registers the engine's operations as its commands. The hook is a
//! builder trait: the host's builder attaches the command set and hands
//! itself back, so attachment chains with the rest of its setup.

use vstd::prelude::*;

verus! {

/// A host shell's runtime, over which its builder is generic.
pub trait Runtime {

}

/// A builder that can attach this engine's command set to itself.
pub trait CommandProvider<R> where R: Runtime {
    /// Registers the engine's operations as the host's commands and returns
    /// the builder for further chaining.
    fn attach_commands(self) -> Self;
}

} // verus!
