//! The reference to a native resource, and the life cycle that every kind of resource
//! shares.
//!
//! A reference is minted by the operation that creates the resource, with a count of
//! one. `add_ref` and `release` raise and lower the count. `close` ends the resource's
//! use at once, whatever the count; the references that are still held are released
//! afterwards. When the count reaches zero nothing is accepted any more, a further
//! `release` included.
//!
//! The count mirrors the one that the native library keeps. Whether a step is allowed is
//! decided here, before the native library is asked; the step is taken only when the
//! native library has confirmed it.
use crate::error::{ErrorKind, Info, Operation, Reason};
use vstd::prelude::*;

verus! {

/// The stages in the life of a reference.
#[derive(Clone, Copy, Debug, PartialEq, Eq, Hash, Structural)]
pub enum HandleState {
    /// No native handle is bound yet.
    Unbound,
    /// The resource can be used.
    Live,
    /// The resource was closed; references to it are still held.
    Closed,
    /// The last reference was released.
    Released,
}

/// A reference to a native resource.
#[derive(Clone, Copy, Debug, PartialEq, Eq, Structural)]
pub struct HandleRef {
    /// The native handle; zero is the null handle.
    inner: u64,
    /// The number of references that are held.
    refs: u32,
    /// Whether the resource was closed.
    closed: bool,
}

impl HandleRef {
    /// The native handle; zero is the null handle.
    pub closed spec fn spec_inner(self) -> u64 {
        self.inner
    }

    /// The number of references that are held.
    pub closed spec fn spec_ref_count(self) -> u32 {
        self.refs
    }

    /// Whether `close` was called on the resource.
    pub closed spec fn spec_is_closed(self) -> bool {
        self.closed
    }

    /// The stage that the reference is in.
    pub open spec fn state(self) -> HandleState {
        if self.spec_inner() == 0 {
            HandleState::Unbound
        } else if self.spec_ref_count() == 0 {
            HandleState::Released
        } else if self.spec_is_closed() {
            HandleState::Closed
        } else {
            HandleState::Live
        }
    }

    /// Whether the resource can be used.
    pub open spec fn spec_is_live(&self) -> bool {
        self.state() == HandleState::Live
    }

    /// The reference that `new` mints for the native handle `inner`.
    pub closed spec fn minted(inner: u64) -> HandleRef {
        HandleRef { inner, refs: if inner == 0 { 0 } else { 1 }, closed: false }
    }

    /// The reference after one more `add_ref` that succeeded.
    pub closed spec fn added(self) -> HandleRef {
        HandleRef { refs: (self.refs + 1) as u32, ..self }
    }

    /// The reference after one more `release` that succeeded.
    pub closed spec fn released(self) -> HandleRef {
        HandleRef { refs: (self.refs - 1) as u32, ..self }
    }

    /// The reference after a `close` that succeeded.
    pub closed spec fn shut(self) -> HandleRef {
        HandleRef { closed: true, ..self }
    }

    /// Whether `add_ref` succeeds.
    pub open spec fn can_add_ref(self) -> bool {
        self.spec_is_live() && self.spec_ref_count() < u32::MAX
    }

    /// Whether `release` succeeds.
    pub open spec fn can_release(self) -> bool {
        self.state() == HandleState::Live || self.state() == HandleState::Closed
    }

    /// The reference and the result after `add_ref`.
    pub open spec fn after_add_ref(self, operation: Operation, reply: Result<(), Info>) -> (
        HandleRef,
        Result<(), ErrorKind>,
    ) {
        if !self.spec_is_live() {
            (self, Err(ErrorKind::InvalidArgument { reason: Reason::HandleNotLive }))
        } else if !self.can_add_ref() {
            (self, Err(ErrorKind::InvalidArgument { reason: Reason::TooManyReferences }))
        } else {
            match reply {
                Err(info) => (self, Err(ErrorKind::NativeCallFailed { operation, info })),
                Ok(_) => (self.added(), Ok(())),
            }
        }
    }

    /// The reference and the result after `release`.
    pub open spec fn after_release(self, operation: Operation, reply: Result<(), Info>) -> (
        HandleRef,
        Result<(), ErrorKind>,
    ) {
        if !self.can_release() {
            (self, Err(ErrorKind::InvalidArgument { reason: Reason::NoReference }))
        } else {
            match reply {
                Err(info) => (self, Err(ErrorKind::NativeCallFailed { operation, info })),
                Ok(_) => (self.released(), Ok(())),
            }
        }
    }

    /// The reference and the result after `close`.
    pub open spec fn after_close(self, operation: Operation, reply: Result<(), Info>) -> (
        HandleRef,
        Result<(), ErrorKind>,
    ) {
        if !self.spec_is_live() {
            (self, Err(ErrorKind::InvalidArgument { reason: Reason::HandleNotLive }))
        } else {
            match reply {
                Err(info) => (self, Err(ErrorKind::NativeCallFailed { operation, info })),
                Ok(_) => (self.shut(), Ok(())),
            }
        }
    }

    /// The reference after `n` calls of `add_ref` that the native library confirms, as
    /// far as they succeed.
    pub open spec fn after_add_refs(self, n: nat) -> HandleRef
        decreases n,
    {
        if n == 0 {
            self
        } else {
            let prev = self.after_add_refs((n - 1) as nat);
            if prev.can_add_ref() {
                prev.added()
            } else {
                prev
            }
        }
    }

    /// The reference after `n` calls of `release` that the native library confirms, as
    /// far as they succeed.
    pub open spec fn after_releases(self, n: nat) -> HandleRef
        decreases n,
    {
        if n == 0 {
            self
        } else {
            let prev = self.after_releases((n - 1) as nat);
            if prev.can_release() {
                prev.released()
            } else {
                prev
            }
        }
    }

    /// Mints the reference that the creating operation returns for the native handle
    /// `inner`: live with one reference, or unbound where the handle is null.
    pub fn new(inner: u64) -> (h: HandleRef)
        ensures
            h == HandleRef::minted(inner),
            h.spec_inner() == inner,
            inner != 0 ==> h.state() == HandleState::Live && h.spec_ref_count() == 1,
            inner == 0 ==> h.state() == HandleState::Unbound,
    {
        HandleRef { inner, refs: if inner == 0 { 0 } else { 1 }, closed: false }
    }

    /// The native handle.
    pub fn inner(&self) -> (r: u64)
        ensures
            r == self.spec_inner(),
    {
        self.inner
    }

    /// The number of references that are held.
    pub fn ref_count(&self) -> (r: u32)
        ensures
            r == self.spec_ref_count(),
    {
        self.refs
    }

    /// The stage that the reference is in.
    pub fn get_state(&self) -> (s: HandleState)
        ensures
            s == self.state(),
    {
        if self.inner == 0 {
            HandleState::Unbound
        } else if self.refs == 0 {
            HandleState::Released
        } else if self.closed {
            HandleState::Closed
        } else {
            HandleState::Live
        }
    }

    /// Whether the resource can be used.
    #[verifier::when_used_as_spec(spec_is_live)]
    pub fn is_live(&self) -> (r: bool)
        ensures
            r == self.spec_is_live(),
    {
        self.inner != 0 && self.refs != 0 && !self.closed
    }

    /// `Ok` where the resource can be used; otherwise the error with which every
    /// operation on it fails.
    pub fn check_live(&self) -> (r: Result<(), ErrorKind>)
        ensures
            self.spec_is_live() ==> r == Ok::<(), ErrorKind>(()),
            !self.spec_is_live() ==> r == Err::<(), ErrorKind>(
                ErrorKind::InvalidArgument { reason: Reason::HandleNotLive },
            ),
    {
        if self.is_live() {
            Ok(())
        } else {
            Err(ErrorKind::InvalidArgument { reason: Reason::HandleNotLive })
        }
    }

    /// Adds a reference. `operation` is the function of the native library that was
    /// called, and `reply` its answer. Refused are, in this order, a resource that is not
    /// live, a count that cannot grow, and a call that failed; none of them changes
    /// anything, and the first two are refused without a look at the answer.
    pub fn add_ref(&mut self, operation: Operation, reply: Result<(), Info>) -> (r: Result<
        (),
        ErrorKind,
    >)
        ensures
            (*final(self), r) == old(self).after_add_ref(operation, reply),
            r is Ok ==> final(self).spec_is_live() && final(self).spec_ref_count()
                == old(self).spec_ref_count() + 1
                && final(self).spec_inner() == old(self).spec_inner(),
    {
        if !self.is_live() {
            return Err(ErrorKind::InvalidArgument { reason: Reason::HandleNotLive });
        }
        if self.refs == u32::MAX {
            return Err(ErrorKind::InvalidArgument { reason: Reason::TooManyReferences });
        }
        match reply {
            Err(info) => Err(ErrorKind::NativeCallFailed { operation, info }),
            Ok(_) => {
                self.refs = self.refs + 1;
                Ok(())
            },
        }
    }

    /// Releases a reference. `operation` is the function of the native library that was
    /// called, and `reply` its answer. The release of the last reference ends the
    /// resource. Refused are a reference of which nothing is held, without a look at the
    /// answer, and a call that failed; neither changes anything.
    pub fn release(&mut self, operation: Operation, reply: Result<(), Info>) -> (r: Result<
        (),
        ErrorKind,
    >)
        ensures
            (*final(self), r) == old(self).after_release(operation, reply),
            r is Ok ==> final(self).spec_ref_count() == old(self).spec_ref_count() - 1
                && final(self).spec_inner() == old(self).spec_inner(),
            r is Ok && old(self).spec_ref_count() == 1 ==> final(self).state()
                == HandleState::Released,
            r is Ok && old(self).spec_ref_count() > 1 ==> final(self).state() == old(self).state(),
    {
        if self.inner == 0 || self.refs == 0 {
            return Err(ErrorKind::InvalidArgument { reason: Reason::NoReference });
        }
        match reply {
            Err(info) => Err(ErrorKind::NativeCallFailed { operation, info }),
            Ok(_) => {
                self.refs = self.refs - 1;
                Ok(())
            },
        }
    }

    /// Ends the use of the resource at once, whatever the count of references.
    /// `operation` is the function of the native library that was called, and `reply`
    /// its answer. The references that are held stay to be released. Refused are a
    /// resource that is not live, without a look at the answer, and a call that failed;
    /// neither changes anything.
    pub fn close(&mut self, operation: Operation, reply: Result<(), Info>) -> (r: Result<
        (),
        ErrorKind,
    >)
        ensures
            (*final(self), r) == old(self).after_close(operation, reply),
            r is Ok ==> final(self).state() == HandleState::Closed && final(self).spec_ref_count()
                == old(self).spec_ref_count() && final(self).spec_inner() == old(self).spec_inner(),
    {
        if !self.is_live() {
            return Err(ErrorKind::InvalidArgument { reason: Reason::HandleNotLive });
        }
        match reply {
            Err(info) => Err(ErrorKind::NativeCallFailed { operation, info }),
            Ok(_) => {
                self.closed = true;
                Ok(())
            },
        }
    }

    /// The reference that is minted for a handle other than null is live and is the
    /// only reference.
    pub proof fn lemma_minted(inner: u64)
        ensures
            HandleRef::minted(inner).spec_inner() == inner,
            inner != 0 ==> HandleRef::minted(inner).state() == HandleState::Live
                && HandleRef::minted(inner).spec_ref_count() == 1,
            inner == 0 ==> HandleRef::minted(inner).state() == HandleState::Unbound,
    {
    }

    /// What a step of the life cycle changes: `added` and `released` the count, `shut`
    /// the closing, and none of them the native handle.
    pub proof fn lemma_steps(self)
        ensures
            self.added().spec_inner() == self.spec_inner(),
            self.added().spec_is_closed() == self.spec_is_closed(),
            self.spec_ref_count() < u32::MAX ==> self.added().spec_ref_count()
                == self.spec_ref_count() + 1,
            self.released().spec_inner() == self.spec_inner(),
            self.released().spec_is_closed() == self.spec_is_closed(),
            self.spec_ref_count() > 0 ==> self.released().spec_ref_count()
                == self.spec_ref_count() - 1,
            self.shut().spec_inner() == self.spec_inner(),
            self.shut().spec_is_closed(),
            self.shut().spec_ref_count() == self.spec_ref_count(),
    {
    }

    /// The count of a live reference after `n` further references were added, where the
    /// count has room for them.
    pub proof fn lemma_after_add_refs(self, n: nat)
        requires
            self.spec_is_live(),
            self.spec_ref_count() + n <= u32::MAX,
        ensures
            self.after_add_refs(n).spec_is_live(),
            self.after_add_refs(n).spec_ref_count() == self.spec_ref_count() + n,
            self.after_add_refs(n).spec_inner() == self.spec_inner(),
        decreases n,
    {
        if n > 0 {
            self.lemma_after_add_refs((n - 1) as nat);
        }
    }

    /// Releasing `n` references of a reference that is live or closed, where it holds
    /// more than `n`, leaves it in its state with `n` fewer.
    pub proof fn lemma_after_releases_some(self, n: nat)
        requires
            self.can_release(),
            n < self.spec_ref_count(),
        ensures
            self.after_releases(n).state() == self.state(),
            self.after_releases(n).spec_ref_count() == self.spec_ref_count() - n,
            self.after_releases(n).spec_inner() == self.spec_inner(),
        decreases n,
    {
        if n > 0 {
            self.lemma_after_releases_some((n - 1) as nat);
        }
    }

    /// Releasing as many references as are held, or more, ends in the released state
    /// with none left.
    pub proof fn lemma_after_releases_all(self, n: nat)
        requires
            self.can_release(),
            n >= self.spec_ref_count(),
        ensures
            self.after_releases(n).state() == HandleState::Released,
            self.after_releases(n).spec_ref_count() == 0,
        decreases n,
    {
        if n == self.spec_ref_count() {
            self.lemma_after_releases_some((n - 1) as nat);
        } else {
            self.lemma_after_releases_all((n - 1) as nat);
        }
    }

    /// A resource that was created and then had `k` references added stays usable for
    /// exactly `k` releases: after `n <= k` of them it is live with the rest of its
    /// references, and the release that matches the creation, the `k + 1`th, ends it.
    pub proof fn lemma_references_balance(inner: u64, k: nat, n: nat)
        requires
            inner != 0,
            k < u32::MAX,
            n <= k + 1,
        ensures
            n <= k ==> HandleRef::minted(inner).after_add_refs(k).after_releases(
                n,
            ).spec_is_live(),
            n <= k ==> HandleRef::minted(inner).after_add_refs(k).after_releases(
                n,
            ).spec_ref_count() == 1 + k - n,
            n == k + 1 ==> HandleRef::minted(inner).after_add_refs(k).after_releases(n).state()
                == HandleState::Released,
    {
        let h = HandleRef::minted(inner);
        h.lemma_after_add_refs(k);
        let g = h.after_add_refs(k);
        if n <= k {
            g.lemma_after_releases_some(n);
        } else {
            g.lemma_after_releases_all(n);
        }
    }

    /// Once the last reference is released every operation of the life cycle is
    /// refused and leaves the reference as it is, however often it is tried.
    pub proof fn lemma_released_is_final(self, n: nat)
        requires
            self.state() == HandleState::Released,
        ensures
            !self.can_add_ref(),
            !self.can_release(),
            !self.spec_is_live(),
            self.after_releases(n) == self,
            self.after_add_refs(n) == self,
        decreases n,
    {
        if n > 0 {
            self.lemma_released_is_final((n - 1) as nat);
        }
    }
}

} // verus!
