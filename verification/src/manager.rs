//! The transfer manager: the process-wide token counter and the cancellation
//! registry mapping each active transfer's one-byte token to its cancellation
//! signal.
//!
//! Tokens run from 1 to 255; 0 is reserved as a sentinel. The counter wraps
//! from 255 back to 1 and never hands out 0. The 255-value space bounds the
//! number of concurrent transfers; an entry must be unregistered before its
//! token value can safely come round again.

use vstd::prelude::*;
use std::collections::HashMap;
use tokio_util::sync::CancellationToken;

verus! {

broadcast use vstd::std_specs::hash::group_hash_axioms;

/// Declares tokio_util's `CancellationToken` so registry entries can hold
/// one. The value is opaque here: everything known about it is said by the
/// wrappers below.
#[verifier::external_type_specification]
#[verifier::external_body]
pub struct ExCancellationToken(CancellationToken);

/// Relies on tokio_util's `CancellationToken::new`: a fresh signal handle in
/// the non-cancelled state.
#[verifier::external_body]
fn signal_new() -> CancellationToken {
    CancellationToken::new()
}

/// Relies on tokio_util's `Clone for CancellationToken`: the clone is
/// cancelled whenever the original is, and vice versa.
#[verifier::external_body]
fn signal_clone(signal: &CancellationToken) -> CancellationToken {
    signal.clone()
}

/// Relies on tokio_util's `CancellationToken::cancel`: requests cancellation
/// on this handle and all its clones.
#[verifier::external_body]
fn signal_cancel(signal: &CancellationToken) {
    signal.cancel()
}

/// Relies on tokio_util's `CancellationToken::is_cancelled`: observes whether
/// cancellation has been requested. The answer depends on what other holders
/// of clones have done, so nothing is promised of it.
#[verifier::external_body]
fn signal_is_cancelled(signal: &CancellationToken) -> bool {
    signal.is_cancelled()
}

/// The token after `c`: the counter skips 0 and wraps from 255 to 1.
pub open spec fn spec_next_token(c: u8) -> u8 {
    if c == 255 {
        1
    } else {
        (c + 1) as u8
    }
}

/// Owns the token counter and the registry of active transfers. One manager
/// exists per process; handlers share it behind a lock.
pub struct TransferManager {
    counter: u8,
    registry: HashMap<u8, CancellationToken>,
}

impl TransferManager {
    /// The value the counter will advance from next.
    pub closed spec fn counter(self) -> u8 {
        self.counter
    }

    /// The tokens of the transfers currently registered.
    pub closed spec fn active(self) -> Set<u8> {
        self.registry@.dom()
    }

    pub fn new() -> (r: Self)
        ensures
            r.counter() == 0,
            r.active() == Set::<u8>::empty(),
    {
        TransferManager { counter: 0, registry: HashMap::new() }
    }

    /// Advance the counter and hand out the next token. The counter wraps
    /// from 255 to 1 and never assigns the reserved value 0.
    pub fn next_token(&mut self) -> (t: u8)
        ensures
            t == spec_next_token(old(self).counter()),
            t != 0,
            1 <= t <= 255,
            final(self).counter() == t,
            final(self).active() == old(self).active(),
    {
        if self.counter == 255 {
            self.counter = 0;
        }
        self.counter = self.counter + 1;
        self.counter
    }

    /// Register a transfer under `token`: a fresh cancellation signal is
    /// stored for it and a clone of that signal is handed back for the
    /// transfer's workers and coalescer to poll.
    pub fn register(&mut self, token: u8) -> (signal: CancellationToken)
        requires
            token != 0,
            !old(self).active().contains(token),
        ensures
            final(self).active() == old(self).active().insert(token),
            final(self).counter() == old(self).counter(),
    {
        let stored = signal_new();
        let handed_out = signal_clone(&stored);
        self.registry.insert(token, stored);
        handed_out
    }

    /// Fire the cancellation signal of the transfer registered under `token`.
    /// On an unknown or already-unregistered token this is a no-op: the
    /// registry is left as it is and no error arises. Returns whether a
    /// transfer was signalled.
    pub fn trigger(&self, token: u8) -> (was_active: bool)
        ensures
            was_active == self.active().contains(token),
    {
        match self.registry.get(&token) {
            Some(signal) => {
                signal_cancel(signal);
                true
            },
            None => false,
        }
    }

    /// Remove a finished transfer's entry, making the token value safe to
    /// reuse. Called on every exit path: success, failure and cancellation.
    pub fn unregister(&mut self, token: u8)
        ensures
            final(self).active() == old(self).active().remove(token),
            final(self).counter() == old(self).counter(),
    {
        self.registry.remove(&token);
    }

    /// Whether a transfer is currently registered under `token`.
    pub fn is_active(&self, token: u8) -> (r: bool)
        ensures
            r == self.active().contains(token),
    {
        self.registry.contains_key(&token)
    }

    /// Poll the stored signal of an active transfer: `None` for an unknown
    /// token, otherwise whether cancellation has been requested so far (the
    /// answer can flip to `true` at any moment as other handlers act).
    pub fn poll_cancelled(&self, token: u8) -> (r: Option<bool>)
        ensures
            r is Some <==> self.active().contains(token),
    {
        match self.registry.get(&token) {
            Some(signal) => Some(signal_is_cancelled(signal)),
            None => None,
        }
    }
}

/// The answer to a cancel control action carrying payload `id`: an empty
/// payload is rejected; otherwise the first byte is the token and that
/// transfer's signal is fired (a no-op if it is no longer active).
pub fn cancel_download(manager: &TransferManager, id: &[u8]) -> (r: String)
    ensures
        id@.len() == 0 ==> r@ == "Invalid Message Id"@,
        id@.len() > 0 ==> r@ == "Download will be canceled shortly"@,
{
    if id.len() == 0 {
        return "Invalid Message Id".to_owned();
    }
    let token = id[0];
    manager.trigger(token);
    "Download will be canceled shortly".to_owned()
}

} // verus!
