use vstd::prelude::*;

verus! {

/// A failure reported by the underlying code-patching engine while installing
/// a hook.
///
/// The facade surfaces whichever of these the engine reports, unchanged, and
/// adds no failure cases of its own. After any of them the target is
/// untouched and nothing has been published.
#[derive(Clone, Copy, PartialEq, Eq, Structural, Debug)]
pub enum EngineError {
    /// The target's entry cannot be patched (for example, its prologue is
    /// too short to rewrite).
    NotHookable,
    /// The engine could not allocate memory for the trampoline thunk.
    TrampolineAllocationFailed,
    /// The engine could not change the protection of the target's code page.
    ProtectionChangeFailed,
    /// A hook is already installed on this target.
    AlreadyHooked,
}

} // verus!
