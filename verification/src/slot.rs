use vstd::prelude::*;
use vstd::string::StringExecFns;

use crate::addr::Addr;

verus! {

/// A caller-owned cell for a trampoline address.
///
/// A slot starts empty and is populated when the outcome of a successful
/// install is published to it; the replacement body later reads it to reach
/// the original behaviour. Nothing here ever clears a populated slot, and a
/// populated slot stays valid for the lifetime of the underlying hook.
///
/// Empty is a state of its own, not an address that happens to be zero: a
/// slot holding the address whose bits are zero counts as populated.
///
/// The cell is process-wide in use: the caller declares it once, at load
/// time, and shares it with the replacement body. Serialising the install
/// before the first read is the caller's obligation.
pub struct TrampolineSlot {
    tramp: Option<Addr>,
}

impl View for TrampolineSlot {
    type V = Option<Addr>;

    closed spec fn view(&self) -> Option<Addr> {
        self.tramp
    }
}

impl TrampolineSlot {
    /// A fresh slot: empty, nothing published yet.
    pub fn empty() -> (r: TrampolineSlot)
        ensures
            r@ is None,
    {
        TrampolineSlot { tramp: None }
    }

    /// Whether a trampoline has been published to this slot.
    pub fn is_populated(&self) -> (r: bool)
        ensures
            r == (self@ is Some),
    {
        self.tramp.is_some()
    }

    /// Records `tramp` in the slot. A later read yields exactly this address.
    pub fn set(&mut self, tramp: Addr)
        ensures
            final(self)@ == Some(tramp),
    {
        self.tramp = Some(tramp);
    }

    /// The trampoline published to this slot.
    ///
    /// The caller must know the slot is populated: reading an empty slot is
    /// not a recoverable condition, and the call site is expected to abort
    /// with [`empty_slot_diagnostic`] rather than reach this function.
    pub fn get(&self) -> (r: Addr)
        requires
            self@ is Some,
        ensures
            r == self@.unwrap(),
    {
        self.tramp.unwrap()
    }
}

/// The slot contents after an install outcome is published to a slot holding
/// `v`: a successful install records the engine's trampoline, a failed one
/// leaves the slot exactly as it was. The engine's error type `E` is opaque
/// to the facade.
pub open spec fn published_view<E>(v: Option<Addr>, outcome: Result<Addr, E>) -> Option<Addr> {
    match outcome {
        Ok(t) => Some(t),
        Err(_) => v,
    }
}

/// What publishing an install outcome reports back: plain success once the
/// trampoline is recorded, and otherwise the engine's error itself, unchanged.
pub open spec fn published_result<E>(outcome: Result<Addr, E>) -> Result<(), E> {
    match outcome {
        Ok(_) => Ok(()),
        Err(e) => Err(e),
    }
}

/// Publishes the outcome of an install to a trampoline slot.
///
/// On success the engine's trampoline is recorded in `slot` and the caller
/// gets back plain success; on failure the slot is left exactly as it was and
/// the engine's error is returned unchanged.
pub fn publish<E>(slot: &mut TrampolineSlot, outcome: Result<Addr, E>) -> (r: Result<(), E>)
    ensures
        final(slot)@ == published_view(old(slot)@, outcome),
        r == published_result(outcome),
{
    match outcome {
        Ok(t) => {
            slot.set(t);
            Ok(())
        },
        Err(e) => Err(e),
    }
}

/// The diagnostic for a read of a slot that was never populated. It names the
/// slot, so that the failure is attributable; aborting with it is strictly
/// better than calling through an invalid address.
pub fn empty_slot_diagnostic(name: &str) -> (r: String)
    ensures
        r@ == "trampoline slot is not set: "@ + name@,
{
    String::from_str("trampoline slot is not set: ").concat(name)
}

/// Slot round-trip: whatever a slot held before, publishing a successful
/// install leaves it holding exactly the trampoline the engine returned, so a
/// later read yields that address and nothing else.
pub proof fn lemma_slot_round_trip<E>(v: Option<Addr>, t: Addr)
    ensures
        published_view(v, Result::<Addr, E>::Ok(t)) == Some(t),
        published_view(v, Result::<Addr, E>::Ok(t)).unwrap() == t,
{
}

/// Error transparency: publishing a failed install hands the engine's error
/// back unchanged — same value, no wrapping — and leaves the slot exactly as
/// it was. In particular a failed install against a fresh slot leaves it
/// empty.
pub proof fn lemma_error_transparency<E>(v: Option<Addr>, e: E)
    ensures
        published_result(Result::<Addr, E>::Err(e)) == Result::<(), E>::Err(e),
        published_view(v, Result::<Addr, E>::Err(e)) == v,
        published_view(Option::<Addr>::None, Result::<Addr, E>::Err(e)) is None,
{
}

/// A populated slot never becomes empty: no install outcome, successful or
/// failed, publishes emptiness. The only transition a slot ever makes is from
/// empty to populated.
pub proof fn lemma_populated_stays_populated<E>(v: Option<Addr>, outcome: Result<Addr, E>)
    requires
        v is Some,
    ensures
        published_view(v, outcome) is Some,
{
}

} // verus!
