//! Signal sources: a closure registered with the event loop runs each time a
//! process signal is delivered, until its handle is destroyed.
use vstd::prelude::*;
use crate::ledger::{Ledger, NativeCall};

verus! {

/// The single-threaded event loop, as seen from the registration layer: its
/// id, the thread that owns it and the record of the sources registered with
/// its utility interface.
pub struct Loop {
    id: u32,
    owner: u64,
    utils: Ledger,
}

/// An owned signal source of one loop. It keeps the closure alive for as
/// long as the native source may call it. Teardown takes two steps:
/// `Loop::destroy_source` removes the native source, then
/// `Loop::free_source` frees the closure. A handle dropped without them
/// frees the closure while the native source is still registered; a real
/// loop would then call freed memory, and only here, where firing needs the
/// handle, does the source never fire again.
pub struct Source<F: Fn()> {
    loop_id: u32,
    handle: u64,
    signal: i32,
    data: Box<F>,
}

impl<F: Fn()> Source<F> {
    pub closed spec fn loop_id_spec(&self) -> u32 {
        self.loop_id
    }

    pub closed spec fn handle_spec(&self) -> u64 {
        self.handle
    }

    pub closed spec fn signal_spec(&self) -> i32 {
        self.signal
    }

    pub closed spec fn callback(&self) -> F {
        *self.data
    }

    /// The id of the loop the source was registered with.
    pub fn loop_id(&self) -> (r: u32)
        ensures
            r == self.loop_id_spec(),
    {
        self.loop_id
    }

    /// The number of the native source record.
    pub fn handle(&self) -> (r: u64)
        ensures
            r == self.handle_spec(),
    {
        self.handle
    }

    /// The signal this source reacts to.
    pub fn signal(&self) -> (r: i32)
        ensures
            r == self.signal_spec(),
    {
        self.signal
    }
}

impl Loop {
    pub closed spec fn id_spec(&self) -> u32 {
        self.id
    }

    pub closed spec fn owner_spec(&self) -> u64 {
        self.owner
    }

    pub closed spec fn sources(&self) -> Ledger {
        self.utils
    }

    pub open spec fn wf(&self) -> bool {
        self.sources().wf()
    }

    pub open spec fn is_live(&self, h: u64) -> bool {
        self.sources().is_live(h)
    }

    pub open spec fn awaits_release(&self, h: u64) -> bool {
        self.sources().awaits_release(h)
    }

    pub open spec fn history(&self) -> Seq<NativeCall> {
        self.sources().history()
    }

    /// Whether `source` was registered with this loop.
    pub open spec fn owns<F: Fn()>(&self, source: &Source<F>) -> bool {
        source.loop_id_spec() == self.id_spec()
    }

    /// A loop numbered `id`, owned by the thread numbered `owner`, with no
    /// sources yet.
    pub fn new(id: u32, owner: u64) -> (r: Loop)
        ensures
            r.wf(),
            r.id_spec() == id,
            r.owner_spec() == owner,
            r.history() == Seq::<NativeCall>::empty(),
            r.sources().next_handle() == 0,
    {
        Loop { id, owner, utils: Ledger::new() }
    }

    pub fn id(&self) -> (r: u32)
        ensures
            r == self.id_spec(),
    {
        self.id
    }

    /// The thread the loop is affine to.
    pub fn owner(&self) -> (r: u64)
        ensures
            r == self.owner_spec(),
    {
        self.owner
    }

    /// The native calls made for this loop's sources, oldest first.
    pub fn calls(&self) -> (r: &Vec<NativeCall>)
        ensures
            r@ == self.history(),
    {
        self.utils.calls()
    }

    /// Registers `callback` to run whenever `signal` is delivered to the loop.
    /// Registration is only allowed from the thread that owns the loop.
    #[must_use]
    pub fn add_signal_local<F: Fn()>(&mut self, thread: u64, signal: i32, callback: F) -> (r: Source<F>)
        requires
            old(self).wf(),
            thread == old(self).owner_spec(),
            old(self).sources().next_handle() < u64::MAX,
        ensures
            final(self).wf(),
            final(self).id_spec() == old(self).id_spec(),
            final(self).owner_spec() == old(self).owner_spec(),
            final(self).owns(&r),
            r.handle_spec() == old(self).sources().next_handle(),
            r.signal_spec() == signal,
            r.callback() == callback,
            final(self).sources().next_handle() == r.handle_spec() + 1,
            final(self).history() == old(self).history().push(NativeCall::Register { handle: r.handle_spec() }),
            final(self).is_live(r.handle_spec()),
            forall|g: u64| g != r.handle_spec() ==> (final(self).is_live(g) == old(self).is_live(g)),
            forall|g: u64| final(self).awaits_release(g) == old(self).awaits_release(g),
    {
        let data = Box::new(callback);
        let handle = self.utils.register();
        proof {
            old(self).sources().lemma_step(&self.utils, NativeCall::Register { handle });
        }
        Source { loop_id: self.id, handle, signal, data }
    }

    /// Destroys the native source. The source's closure is left alone; it
    /// can no longer be called and is freed by `free_source`.
    pub fn destroy_source<F: Fn()>(&mut self, source: &Source<F>)
        requires
            old(self).wf(),
            old(self).owns(source),
            old(self).is_live(source.handle_spec()),
        ensures
            final(self).wf(),
            final(self).id_spec() == old(self).id_spec(),
            final(self).owner_spec() == old(self).owner_spec(),
            final(self).sources().next_handle() == old(self).sources().next_handle(),
            final(self).history() == old(self).history().push(NativeCall::Unregister { handle: source.handle_spec() }),
            !final(self).is_live(source.handle_spec()),
            final(self).awaits_release(source.handle_spec()),
            forall|g: u64| g != source.handle_spec() ==> (final(self).is_live(g) == old(self).is_live(g)),
            forall|g: u64| g != source.handle_spec() ==> (final(self).awaits_release(g) == old(self).awaits_release(g)),
    {
        self.utils.unregister(source.handle);
        proof {
            old(self).sources().lemma_step(&self.utils, NativeCall::Unregister { handle: source.handle });
        }
    }

    /// Frees the closure of a source whose native source is destroyed.
    pub fn free_source<F: Fn()>(&mut self, source: Source<F>)
        requires
            old(self).wf(),
            old(self).owns(&source),
            old(self).awaits_release(source.handle_spec()),
        ensures
            final(self).wf(),
            final(self).id_spec() == old(self).id_spec(),
            final(self).owner_spec() == old(self).owner_spec(),
            final(self).sources().next_handle() == old(self).sources().next_handle(),
            final(self).history() == old(self).history().push(NativeCall::Release { handle: source.handle_spec() }),
            !final(self).awaits_release(source.handle_spec()),
            forall|g: u64| final(self).is_live(g) == old(self).is_live(g),
            forall|g: u64| g != source.handle_spec() ==> (final(self).awaits_release(g) == old(self).awaits_release(g)),
    {
        let Source { loop_id: _, handle, signal: _, data } = source;
        self.utils.release(handle, data);
        proof {
            old(self).sources().lemma_step(&self.utils, NativeCall::Release { handle });
        }
    }

    /// Delivers the source's signal: the native side hands the context back
    /// and the source's closure runs once. Only a live source of this loop
    /// can fire.
    pub fn trigger<F: Fn()>(&self, source: &Source<F>)
        requires
            self.owns(source),
            self.is_live(source.handle_spec()),
            source.callback().requires(()),
        ensures
            source.callback().ensures((), ()),
    {
        let callback: &F = &source.data;
        callback();
    }
}

} // verus!
