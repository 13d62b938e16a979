//! The preference store: one process-wide boolean, the close-to-tray flag.
//!
//! The flag defaults to `true` (close-to-tray enabled). It is written only
//! through the external command surface [`set_close_to_tray`] and read by the
//! window lifecycle guard on every close request. A caller that shares one
//! store across event-callback threads keeps it behind an atomic or a lock;
//! the logic here is over the stored value itself.

use vstd::prelude::*;

verus! {

/// The default value of the close-to-tray flag: enabled.
pub open spec fn default_close_to_tray() -> bool {
    true
}

/// The close-to-tray preference store.
///
/// Holds a single boolean with no other state. Reads return the last value
/// stored, or the default `true` if none was ever stored.
#[derive(Clone, Copy, Debug, PartialEq, Eq, Structural)]
pub struct CloseToTrayState {
    pub enabled: bool,
}

impl CloseToTrayState {
    /// The stored flag value.
    pub open spec fn flag(self) -> bool {
        self.enabled
    }

    /// A fresh store holds the default value.
    pub fn new() -> (s: Self)
        ensures
            s.flag() == default_close_to_tray(),
    {
        CloseToTrayState { enabled: true }
    }

    /// Read the flag. Always returns the last successfully stored value.
    pub fn get(&self) -> (r: bool)
        ensures
            r == self.flag(),
    {
        self.enabled
    }

    /// Store a new flag value. Always succeeds; no other effect.
    pub fn set(&mut self, enabled: bool)
        ensures
            final(self).flag() == enabled,
    {
        self.enabled = enabled;
    }
}

/// External command surface: the one operation the UI layer may invoke at
/// runtime. Writes directly to the preference store; cannot fail.
pub fn set_close_to_tray(state: &mut CloseToTrayState, enabled: bool)
    ensures
        final(state).flag() == enabled,
{
    state.set(enabled);
}

/// The flag value after a history of `set` calls, applied oldest first,
/// starting from `init`.
pub open spec fn flag_after(init: bool, writes: Seq<bool>) -> bool
    decreases writes.len(),
{
    if writes.len() == 0 {
        init
    } else {
        flag_after(writes[0], writes.drop_first())
    }
}

/// Last write wins: after any sequence of `set` calls the store holds the
/// most recent value written, and the initial value if none was written.
pub proof fn lemma_last_write_wins(init: bool, writes: Seq<bool>)
    ensures
        flag_after(init, writes) == if writes.len() == 0 {
            init
        } else {
            writes.last()
        },
    decreases writes.len(),
{
    if writes.len() > 0 {
        lemma_last_write_wins(writes[0], writes.drop_first());
        if writes.len() > 1 {
            assert(writes.drop_first().last() == writes.last());
        }
    }
}

} // verus!
