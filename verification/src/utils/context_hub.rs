//! The credential/scope aggregation hub: consumers register the
//! authorization scopes they need before the first authentication; one
//! handshake is then performed with the union of the registered scopes, and
//! its handle is cached and shared. The hub guarantees the handle is
//! populated at most once, and that every later lookup observes the cached
//! handle.

use vstd::prelude::*;

use crate::utils::google_auth::{GConf, GmailScope};

verus! {

/// What registering a scope does to the registered set: a scope already
/// present is not added again; a new one is appended.
pub open spec fn spec_register(scopes: Seq<GmailScope>, scope: GmailScope) -> Seq<GmailScope> {
    if scopes.contains(scope) {
        scopes
    } else {
        scopes.push(scope)
    }
}

/// Registering a scope a second time changes nothing.
pub proof fn lemma_register_idempotent(scopes: Seq<GmailScope>, scope: GmailScope)
    ensures
        spec_register(spec_register(scopes, scope), scope) == spec_register(scopes, scope),
{
    if !scopes.contains(scope) {
        assert(scopes.push(scope).contains(scope)) by {
            assert(scopes.push(scope)[scopes.len() as int] == scope);
        }
    }
}

/// Registering a scope makes the registered set exactly the old set plus
/// that scope, and keeps the set free of duplicates.
pub proof fn lemma_register_adds_scope(scopes: Seq<GmailScope>, scope: GmailScope)
    requires
        forall|i: int, j: int|
            0 <= i < j < scopes.len() ==> #[trigger] scopes[i] != #[trigger] scopes[j],
    ensures
        spec_register(scopes, scope).to_set() == scopes.to_set().insert(scope),
        forall|i: int, j: int|
            0 <= i < j < spec_register(scopes, scope).len() ==> #[trigger] spec_register(
                scopes,
                scope,
            )[i] != #[trigger] spec_register(scopes, scope)[j],
{
    if scopes.contains(scope) {
        assert(scopes.to_set().contains(scope));
        assert(spec_register(scopes, scope).to_set() =~= scopes.to_set().insert(scope));
    } else {
        scopes.lemma_push_to_set_commute(scope);
        assert(spec_register(scopes, scope).to_set() =~= scopes.to_set().insert(scope));
    }
}

/// The handle of an authenticated session: it records the scope snapshot the
/// handshake was performed with. The composing layer pairs it with the live
/// API connection it stands for.
#[derive(Debug, Clone)]
pub struct AuthHandle {
    /// The scopes the handshake was performed with.
    pub scopes: Vec<GmailScope>,
}

/// A hub for managing mailbox authentication: collects scopes from the
/// components that need API access, so that one handshake with the union of
/// all registered scopes serves every consumer.
pub struct ContextHub {
    gconf: GConf,
    scopes: Vec<GmailScope>,
    hub: Option<AuthHandle>,
}

impl ContextHub {
    /// The scopes registered so far, in registration order.
    pub closed spec fn spec_scopes(&self) -> Seq<GmailScope> {
        self.scopes@
    }

    /// The cached handle, once a handshake has completed.
    pub closed spec fn spec_hub(&self) -> Option<AuthHandle> {
        self.hub
    }

    /// The registered scope set holds no duplicates.
    pub closed spec fn wf(&self) -> bool {
        forall|i: int, j: int|
            0 <= i < j < self.scopes@.len() ==> #[trigger] self.scopes@[i]
                != #[trigger] self.scopes@[j]
    }

    /// Creates a hub with no scopes registered and no handshake performed.
    pub fn new(gconf: GConf) -> (r: Self)
        ensures
            r.spec_scopes() =~= Seq::<GmailScope>::empty(),
            r.spec_hub() is None,
            r.wf(),
    {
        Self { gconf, scopes: Vec::new(), hub: None }
    }

    /// Registers a scope. The operation is idempotent: a scope already
    /// registered is not added again.
    pub fn add_scope(&mut self, scope: GmailScope)
        ensures
            final(self).spec_scopes() == spec_register(old(self).spec_scopes(), scope),
            final(self).spec_hub() == old(self).spec_hub(),
            old(self).wf() ==> final(self).wf(),
    {
        let mut i: usize = 0;
        while i < self.scopes.len()
            invariant
                i <= self.scopes.len(),
                forall|j: int| 0 <= j < i ==> self.scopes@[j] != scope,
                *self == *old(self),
            decreases self.scopes.len() - i,
        {
            if self.scopes[i] == scope {
                proof {
                    assert(old(self).spec_scopes().contains(scope));
                }
                return ;
            }
            i = i + 1;
        }
        proof {
            assert(!old(self).spec_scopes().contains(scope));
        }
        self.scopes.push(scope);
    }

    /// Hands back the cached handle when a handshake has already completed:
    /// every caller observes the one cached handle. Before the first
    /// handshake there is nothing to hand back.
    pub fn get_hub(&self) -> (r: Option<&AuthHandle>)
        ensures
            match r {
                Some(h) => self.spec_hub() == Some(*h),
                None => self.spec_hub() is None,
            },
    {
        self.hub.as_ref()
    }

    /// The scopes a handshake performed now would be asked for: a snapshot
    /// of the currently-registered set.
    pub fn snapshot_scopes(&self) -> (r: Vec<GmailScope>)
        ensures
            r@ == self.spec_scopes(),
    {
        let mut snapshot: Vec<GmailScope> = Vec::new();
        let mut i: usize = 0;
        while i < self.scopes.len()
            invariant
                i <= self.scopes.len(),
                snapshot@ =~= self.scopes@.take(i as int),
            decreases self.scopes.len() - i,
        {
            snapshot.push(self.scopes[i]);
            i = i + 1;
        }
        proof {
            assert(self.scopes@.take(self.scopes@.len() as int) =~= self.scopes@);
        }
        snapshot
    }

    /// Caches the handle of a completed handshake. The handle is populated
    /// at most once: a second handshake cannot be recorded, so regardless of
    /// how many consumers ask for the hub, at most one handshake executes.
    pub fn install_hub(&mut self, handle: AuthHandle)
        requires
            old(self).spec_hub() is None,
        ensures
            final(self).spec_hub() == Some(handle),
            final(self).spec_scopes() == old(self).spec_scopes(),
            old(self).wf() ==> final(self).wf(),
    {
        self.hub = Some(handle);
    }
}

} // verus!
