//! Bookkeeping of native registrations: every registration is recorded when
//! it is made, its native unregistration when it is removed, and the release
//! of the closures handed to the native side when they are freed, which is
//! only allowed once the unregistration is on record.
use vstd::prelude::*;

verus! {

/// One call made across the native boundary on behalf of a handle.
#[derive(PartialEq, Eq, Structural, Clone, Copy, Debug)]
pub enum NativeCall {
    /// The native side was given a callback context and returned a registration.
    Register { handle: u64 },
    /// The native registration was removed; no callback can fire after it.
    Unregister { handle: u64 },
    /// The closure allocation of the registration was freed.
    Release { handle: u64 },
}

impl NativeCall {
    pub open spec fn handle_of(self) -> u64 {
        match self {
            NativeCall::Register { handle } => handle,
            NativeCall::Unregister { handle } => handle,
            NativeCall::Release { handle } => handle,
        }
    }
}

/// Whether call `c` occurs in `s`.
pub open spec fn occurs(s: Seq<NativeCall>, c: NativeCall) -> bool {
    exists|i: int| 0 <= i < s.len() && #[trigger] s[i] == c
}

/// Whether call `c` occurs in `s` before index `i`.
pub open spec fn occurs_before(s: Seq<NativeCall>, i: int, c: NativeCall) -> bool {
    exists|j: int| 0 <= j < i && #[trigger] s[j] == c
}

/// The call that must precede `c`: a registration before its unregistration,
/// an unregistration before its release.
pub open spec fn prerequisite(c: NativeCall) -> Option<NativeCall> {
    match c {
        NativeCall::Register { .. } => None,
        NativeCall::Unregister { handle } => Some(NativeCall::Register { handle }),
        NativeCall::Release { handle } => Some(NativeCall::Unregister { handle }),
    }
}

/// A well-formed history: handle numbers below `next`, no call made twice,
/// and each call preceded by its prerequisite.
pub open spec fn history_wf(s: Seq<NativeCall>, next: u64) -> bool {
    &&& forall|i: int| 0 <= i < s.len() ==> (#[trigger] s[i]).handle_of() < next
    &&& forall|i: int, j: int| 0 <= i < s.len() && 0 <= j < s.len() && #[trigger] s[i] == #[trigger] s[j] ==> i == j
    &&& forall|i: int| 0 <= i < s.len() && (#[trigger] prerequisite(s[i])) is Some ==>
            occurs_before(s, i, prerequisite(s[i])->0)
}

proof fn lemma_push_occurs(s: Seq<NativeCall>, x: NativeCall, c: NativeCall)
    ensures
        occurs(s.push(x), c) <==> (occurs(s, c) || x == c),
{
    let t = s.push(x);
    if occurs(s, c) {
        let i = choose|i: int| 0 <= i < s.len() && #[trigger] s[i] == c;
        assert(t[i] == c);
    }
    if x == c {
        assert(t[s.len() as int] == c);
    }
    if occurs(t, c) {
        let i = choose|i: int| 0 <= i < t.len() && #[trigger] t[i] == c;
        if i < s.len() {
            assert(s[i] == c);
        }
    }
}

proof fn lemma_push_wf(s: Seq<NativeCall>, next: u64, x: NativeCall, next2: u64)
    requires
        history_wf(s, next),
        next <= next2,
        x.handle_of() < next2,
        !occurs(s, x),
        prerequisite(x) matches Some(p) ==> occurs(s, p),
    ensures
        history_wf(s.push(x), next2),
{
    let t = s.push(x);
    let n = s.len() as int;
    assert forall|i: int| 0 <= i < t.len() implies (#[trigger] t[i]).handle_of() < next2 by {
        if i < n {
            assert(t[i] == s[i]);
        }
    }
    assert forall|i: int, j: int| 0 <= i < t.len() && 0 <= j < t.len() && #[trigger] t[i] == #[trigger] t[j] implies i == j by {
        if i < n && j < n {
            assert(s[i] == s[j]);
        } else if i < n {
            assert(s[i] == x);
        } else if j < n {
            assert(s[j] == x);
        }
    }
    assert forall|i: int| 0 <= i < t.len() && (#[trigger] prerequisite(t[i])) is Some implies
        occurs_before(t, i, prerequisite(t[i])->0) by {
        let p = prerequisite(t[i])->0;
        if i < n {
            assert(t[i] == s[i]);
            assert(prerequisite(s[i]) is Some);
            let j = choose|j: int| 0 <= j < i && #[trigger] s[j] == p;
            assert(t[j] == s[j]);
        } else {
            let j = choose|j: int| 0 <= j < s.len() && #[trigger] s[j] == p;
            assert(t[j] == s[j]);
        }
    }
}

/// The record of all registrations made against one native object.
pub struct Ledger {
    next: u64,
    calls: Vec<NativeCall>,
}

impl Ledger {
    /// The calls made so far, oldest first.
    pub closed spec fn history(&self) -> Seq<NativeCall> {
        self.calls@
    }

    /// The handle number that the next registration receives.
    pub closed spec fn next_handle(&self) -> u64 {
        self.next
    }

    pub open spec fn registered(&self, h: u64) -> bool {
        occurs(self.history(), NativeCall::Register { handle: h })
    }

    pub open spec fn unregistered(&self, h: u64) -> bool {
        occurs(self.history(), NativeCall::Unregister { handle: h })
    }

    pub open spec fn released(&self, h: u64) -> bool {
        occurs(self.history(), NativeCall::Release { handle: h })
    }

    /// A handle is live from its registration until its unregistration.
    pub open spec fn is_live(&self, h: u64) -> bool {
        self.registered(h) && !self.unregistered(h)
    }

    /// A handle whose registration is gone but whose closures are not freed yet.
    pub open spec fn awaits_release(&self, h: u64) -> bool {
        self.unregistered(h) && !self.released(h)
    }

    pub closed spec fn wf(&self) -> bool {
        history_wf(self.history(), self.next_handle())
    }

    pub fn new() -> (r: Ledger)
        ensures
            r.wf(),
            r.history() == Seq::<NativeCall>::empty(),
            r.next_handle() == 0,
    {
        Ledger { next: 0, calls: Vec::new() }
    }

    pub fn calls(&self) -> (r: &Vec<NativeCall>)
        ensures
            r@ == self.history(),
    {
        &self.calls
    }

    /// Records a new registration and returns its handle number.
    pub fn register(&mut self) -> (h: u64)
        requires
            old(self).wf(),
            old(self).next_handle() < u64::MAX,
        ensures
            final(self).wf(),
            h == old(self).next_handle(),
            final(self).next_handle() == h + 1,
            final(self).history() == old(self).history().push(NativeCall::Register { handle: h }),
            !old(self).registered(h),
            final(self).is_live(h),
            !final(self).released(h),
    {
        let h = self.next;
        let ghost s0 = self.calls@;
        let ghost x = NativeCall::Register { handle: h };
        proof {
            if occurs(s0, x) {
                let i = choose|i: int| 0 <= i < s0.len() && #[trigger] s0[i] == x;
                assert(s0[i].handle_of() < h);
            }
            lemma_push_wf(s0, h, x, (h + 1) as u64);
        }
        self.calls.push(NativeCall::Register { handle: h });
        self.next = h + 1;
        proof {
            old(self).lemma_no_double_free(h);
            old(self).lemma_step(self, x);
        }
        h
    }

    /// Records the native unregistration of a live handle.
    pub fn unregister(&mut self, h: u64)
        requires
            old(self).wf(),
            old(self).is_live(h),
        ensures
            final(self).wf(),
            final(self).next_handle() == old(self).next_handle(),
            final(self).history() == old(self).history().push(NativeCall::Unregister { handle: h }),
            !final(self).is_live(h),
            final(self).awaits_release(h),
    {
        let ghost s0 = self.calls@;
        proof {
            let i = choose|i: int| 0 <= i < s0.len() && #[trigger] s0[i] == (NativeCall::Register { handle: h });
            assert(s0[i].handle_of() < self.next);
            lemma_push_wf(s0, self.next, NativeCall::Unregister { handle: h }, self.next);
        }
        self.calls.push(NativeCall::Unregister { handle: h });
        proof {
            old(self).lemma_no_double_free(h);
            old(self).lemma_step(self, NativeCall::Unregister { handle: h });
        }
    }

    /// Frees the closures of a handle whose unregistration is on record, and
    /// records the release.
    pub fn release<T>(&mut self, h: u64, closures: Box<T>)
        requires
            old(self).wf(),
            old(self).awaits_release(h),
        ensures
            final(self).wf(),
            final(self).next_handle() == old(self).next_handle(),
            final(self).history() == old(self).history().push(NativeCall::Release { handle: h }),
            !final(self).awaits_release(h),
    {
        let ghost s0 = self.calls@;
        proof {
            let i = choose|i: int| 0 <= i < s0.len() && #[trigger] s0[i] == (NativeCall::Unregister { handle: h });
            assert(s0[i].handle_of() < self.next);
            lemma_push_wf(s0, self.next, NativeCall::Release { handle: h }, self.next);
        }
        let _freed: Box<T> = closures;
        self.calls.push(NativeCall::Release { handle: h });
        proof {
            old(self).lemma_step(self, NativeCall::Release { handle: h });
        }
    }

    /// How appending one call changes the state of every handle.
    pub proof fn lemma_step(&self, later: &Ledger, x: NativeCall)
        requires
            later.history() == self.history().push(x),
        ensures
            forall|g: u64| #[trigger] later.registered(g) <==> (self.registered(g) || x == (NativeCall::Register { handle: g })),
            forall|g: u64| #[trigger] later.unregistered(g) <==> (self.unregistered(g) || x == (NativeCall::Unregister { handle: g })),
            forall|g: u64| #[trigger] later.released(g) <==> (self.released(g) || x == (NativeCall::Release { handle: g })),
    {
        assert forall|g: u64| #[trigger] later.registered(g) <==> (self.registered(g) || x == (NativeCall::Register { handle: g })) by {
            lemma_push_occurs(self.history(), x, NativeCall::Register { handle: g });
        }
        assert forall|g: u64| #[trigger] later.unregistered(g) <==> (self.unregistered(g) || x == (NativeCall::Unregister { handle: g })) by {
            lemma_push_occurs(self.history(), x, NativeCall::Unregister { handle: g });
        }
        assert forall|g: u64| #[trigger] later.released(g) <==> (self.released(g) || x == (NativeCall::Release { handle: g })) by {
            lemma_push_occurs(self.history(), x, NativeCall::Release { handle: g });
        }
    }

    /// No double free: whatever registrations and teardowns were made, each
    /// handle was unregistered at most once and released at most once, and a
    /// handle that was unregistered had been registered before.
    pub proof fn lemma_no_double_free(&self, h: u64)
        requires
            self.wf(),
        ensures
            forall|i: int, j: int|
                0 <= i < self.history().len() && 0 <= j < self.history().len()
                    && self.history()[i] == (NativeCall::Unregister { handle: h })
                    && self.history()[j] == (NativeCall::Unregister { handle: h }) ==> i == j,
            forall|i: int, j: int|
                0 <= i < self.history().len() && 0 <= j < self.history().len()
                    && self.history()[i] == (NativeCall::Release { handle: h })
                    && self.history()[j] == (NativeCall::Release { handle: h }) ==> i == j,
            self.unregistered(h) ==> self.registered(h),
            self.released(h) ==> self.unregistered(h),
    {
        let s = self.history();
        if self.released(h) {
            let i = choose|i: int| 0 <= i < s.len() && #[trigger] s[i] == (NativeCall::Release { handle: h });
            assert(prerequisite(s[i]) is Some);
            let j = choose|j: int| 0 <= j < i && #[trigger] s[j] == (NativeCall::Unregister { handle: h });
            assert(s[j] == NativeCall::Unregister { handle: h });
        }
        if self.unregistered(h) {
            let i = choose|i: int| 0 <= i < s.len() && #[trigger] s[i] == (NativeCall::Unregister { handle: h });
            assert(prerequisite(s[i]) is Some);
            let j = choose|j: int| 0 <= j < i && #[trigger] s[j] == (NativeCall::Register { handle: h });
        }
    }

    /// Unregister before free: every release of a handle's closures comes
    /// after the native unregistration of that handle.
    pub proof fn lemma_unregister_before_release(&self, i: int)
        requires
            self.wf(),
            0 <= i < self.history().len(),
            self.history()[i] is Release,
        ensures
            exists|j: int| 0 <= j < i && #[trigger] self.history()[j] == (NativeCall::Unregister {
                handle: self.history()[i].handle_of(),
            }),
    {
        assert(prerequisite(self.history()[i]) is Some);
    }

    /// Once a handle has been unregistered it stays dead: no later state of
    /// the record, which only ever grows at its end, makes it live again.
    pub proof fn lemma_retired_stays_dead(&self, later: &Ledger, h: u64)
        requires
            self.unregistered(h),
            self.history().len() <= later.history().len(),
            later.history().subrange(0, self.history().len() as int) == self.history(),
        ensures
            !later.is_live(h),
    {
        let s = self.history();
        let i = choose|i: int| 0 <= i < s.len() && #[trigger] s[i] == (NativeCall::Unregister { handle: h });
        assert(later.history().subrange(0, s.len() as int)[i] == later.history()[i]);
        assert(later.history()[i] == NativeCall::Unregister { handle: h });
    }
}

} // verus!
