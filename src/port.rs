//! Ports: the requests a port proxy sends, and listeners that route the
//! port's info and param events to closures.
use vstd::prelude::*;
use crate::info::PortInfoRef;
use crate::ledger::{Ledger, NativeCall};
use crate::spa::{ParamType, Pod, ID_ANY};

verus! {

/// Version of the event table that port listeners fill in.
pub const PW_VERSION_PORT_EVENTS: u32 = 0;

/// A method call sent to the remote port.
#[derive(Debug)]
pub enum PortMethod {
    /// Announce future changes of these parameter kinds as param events.
    SubscribeParams { ids: Vec<ParamType>, n_ids: u32 },
    /// Enumerate up to `num` parameters of kind `id` from index `start`.
    EnumParams { seq: i32, id: u32, start: u32, num: u32 },
}

/// The local stand-in for a remote object: its id, the thread that owns it,
/// the listener hooks spliced into its notification list, and the methods
/// sent to it.
pub struct Proxy {
    id: u32,
    owner: u64,
    hooks: Ledger,
    sent: Vec<PortMethod>,
}

impl Proxy {
    pub closed spec fn id_spec(&self) -> u32 {
        self.id
    }

    pub closed spec fn owner_spec(&self) -> u64 {
        self.owner
    }

    pub closed spec fn hooks(&self) -> Ledger {
        self.hooks
    }

    pub closed spec fn requests(&self) -> Seq<PortMethod> {
        self.sent@
    }

    pub open spec fn wf(&self) -> bool {
        self.hooks().wf()
    }

    /// The proxy of the remote object `id`, owned by the thread `owner`.
    pub fn new(id: u32, owner: u64) -> (r: Proxy)
        ensures
            r.wf(),
            r.id_spec() == id,
            r.owner_spec() == owner,
            r.hooks().history() == Seq::<NativeCall>::empty(),
            r.hooks().next_handle() == 0,
            r.requests() == Seq::<PortMethod>::empty(),
    {
        Proxy { id, owner, hooks: Ledger::new(), sent: Vec::new() }
    }

    /// The thread the proxy is affine to.
    pub fn owner(&self) -> (r: u64)
        ensures
            r == self.owner_spec(),
    {
        self.owner
    }

    pub fn id(&self) -> (r: u32)
        ensures
            r == self.id_spec(),
    {
        self.id
    }

    /// The native calls made for this proxy's listeners, oldest first.
    pub fn listener_calls(&self) -> (r: &Vec<NativeCall>)
        ensures
            r@ == self.hooks().history(),
    {
        self.hooks.calls()
    }

    /// The methods sent so far, oldest first.
    pub fn sent(&self) -> (r: &Vec<PortMethod>)
        ensures
            r@ == self.requests(),
    {
        &self.sent
    }
}

pub struct Port {
    proxy: Proxy,
}

/// The closures a listener forwards to, one slot per event kind.
pub struct ListenerLocalCallbacks<I, P> {
    pub info: Option<I>,
    pub param: Option<P>,
}

/// The dispatch table handed to the native side: which event slots are set.
#[derive(PartialEq, Eq, Structural, Clone, Copy, Debug)]
pub struct PortEvents {
    pub version: u32,
    pub info: bool,
    pub param: bool,
}

/// The table for a set of callbacks: a slot is set exactly when a closure
/// was configured for it.
pub open spec fn table_for<I, P>(cbs: ListenerLocalCallbacks<I, P>) -> PortEvents {
    PortEvents { version: PW_VERSION_PORT_EVENTS, info: cbs.info is Some, param: cbs.param is Some }
}

/// Collects the closures of a listener for the port it was made from, before
/// it is registered there.
pub struct PortListenerLocalBuilder<I, P> {
    port_id: u32,
    cbs: ListenerLocalCallbacks<I, P>,
}

/// A registered listener of one port. It keeps the dispatch table and the
/// closures alive while its hook sits in the port's notification list.
/// `remove` is its only teardown: a listener dropped without it frees its
/// closures while a real proxy would still call them.
pub struct PortListener<I, P> {
    port_id: u32,
    events: PortEvents,
    hook: u64,
    data: Box<ListenerLocalCallbacks<I, P>>,
}

fn no_info() -> impl Fn(&PortInfoRef) {
    |_info: &PortInfoRef| {}
}

fn no_param() -> impl Fn(i32, ParamType, u32, u32, Option<&Pod>) {
    |_seq: i32, _id: ParamType, _index: u32, _next: u32, _param: Option<&Pod>| {}
}

impl<I: Fn(&PortInfoRef), P: Fn(i32, ParamType, u32, u32, Option<&Pod>)> PortListenerLocalBuilder<I, P> {
    pub closed spec fn callbacks(&self) -> ListenerLocalCallbacks<I, P> {
        self.cbs
    }

    /// The id of the port the builder was made from.
    pub closed spec fn port_id(&self) -> u32 {
        self.port_id
    }

    /// Sets the closure for info events, replacing any earlier one.
    #[must_use]
    pub fn info<F: Fn(&PortInfoRef)>(self, info: F) -> (r: PortListenerLocalBuilder<F, P>)
        ensures
            r.port_id() == self.port_id(),
            r.callbacks().info == Some(info),
            r.callbacks().param == self.callbacks().param,
    {
        PortListenerLocalBuilder { port_id: self.port_id, cbs: ListenerLocalCallbacks { info: Some(info), param: self.cbs.param } }
    }

    /// Sets the closure for param events, replacing any earlier one.
    #[must_use]
    pub fn param<F: Fn(i32, ParamType, u32, u32, Option<&Pod>)>(self, param: F) -> (r: PortListenerLocalBuilder<I, F>)
        ensures
            r.port_id() == self.port_id(),
            r.callbacks().info == self.callbacks().info,
            r.callbacks().param == Some(param),
    {
        PortListenerLocalBuilder { port_id: self.port_id, cbs: ListenerLocalCallbacks { info: self.cbs.info, param: Some(param) } }
    }

    /// Registers one native listener on the builder's port, whose table
    /// forwards to the configured closures and leaves the other slots unset.
    /// Registration is only allowed from the thread that owns the port.
    #[must_use]
    pub fn register(self, port: &mut Port, thread: u64) -> (r: PortListener<I, P>)
        requires
            old(port).wf(),
            old(port).proxy_spec().id_spec() == self.port_id(),
            thread == old(port).proxy_spec().owner_spec(),
            old(port).proxy_spec().hooks().next_handle() < u64::MAX,
        ensures
            r.wf(),
            r.events() == table_for(self.callbacks()),
            r.callbacks() == self.callbacks(),
            r.hook_spec() == old(port).proxy_spec().hooks().next_handle(),
            r.port_id() == self.port_id(),
            final(port).wf(),
            final(port).proxy_spec().id_spec() == old(port).proxy_spec().id_spec(),
            final(port).proxy_spec().owner_spec() == old(port).proxy_spec().owner_spec(),
            final(port).proxy_spec().requests() == old(port).proxy_spec().requests(),
            final(port).proxy_spec().hooks().next_handle() == r.hook_spec() + 1,
            final(port).history() == old(port).history().push(NativeCall::Register { handle: r.hook_spec() }),
            final(port).is_live(r.hook_spec()),
            forall|g: u64| g != r.hook_spec() ==> (final(port).is_live(g) == old(port).is_live(g)),
    {
        let events = PortEvents {
            version: PW_VERSION_PORT_EVENTS,
            info: self.cbs.info.is_some(),
            param: self.cbs.param.is_some(),
        };
        let data = Box::new(self.cbs);
        let hook = port.proxy.hooks.register();
        proof {
            old(port).proxy_spec().hooks().lemma_step(&port.proxy.hooks, NativeCall::Register { handle: hook });
        }
        PortListener { port_id: self.port_id, events, hook, data }
    }
}

impl<I: Fn(&PortInfoRef), P: Fn(i32, ParamType, u32, u32, Option<&Pod>)> PortListener<I, P> {
    pub closed spec fn events(&self) -> PortEvents {
        self.events
    }

    pub closed spec fn hook_spec(&self) -> u64 {
        self.hook
    }

    /// The id of the port the listener is registered on.
    pub closed spec fn port_id(&self) -> u32 {
        self.port_id
    }

    pub closed spec fn callbacks(&self) -> ListenerLocalCallbacks<I, P> {
        *self.data
    }

    /// The table matches the closures it forwards to.
    pub open spec fn wf(&self) -> bool {
        self.events() == table_for(self.callbacks())
    }

    /// The dispatch table handed to the native side.
    pub fn events_table(&self) -> (r: PortEvents)
        ensures
            r == self.events(),
    {
        self.events
    }

    /// The number of the hook in the port's notification list.
    pub fn hook(&self) -> (r: u64)
        ensures
            r == self.hook_spec(),
    {
        self.hook
    }

    /// Removes the hook from its port's notification list, then frees the
    /// closures.
    pub fn remove(self, port: &mut Port)
        requires
            old(port).wf(),
            old(port).proxy_spec().id_spec() == self.port_id(),
            old(port).is_live(self.hook_spec()),
        ensures
            final(port).wf(),
            final(port).proxy_spec().id_spec() == old(port).proxy_spec().id_spec(),
            final(port).proxy_spec().owner_spec() == old(port).proxy_spec().owner_spec(),
            final(port).proxy_spec().requests() == old(port).proxy_spec().requests(),
            final(port).proxy_spec().hooks().next_handle() == old(port).proxy_spec().hooks().next_handle(),
            final(port).history() == old(port).history().push(
                NativeCall::Unregister { handle: self.hook_spec() },
            ).push(NativeCall::Release { handle: self.hook_spec() }),
            !final(port).is_live(self.hook_spec()),
            !final(port).proxy_spec().hooks().awaits_release(self.hook_spec()),
            forall|g: u64| g != self.hook_spec() ==> (final(port).is_live(g) == old(port).is_live(g)),
    {
        let PortListener { port_id: _, events: _, hook, data } = self;
        let ghost h0 = port.proxy.hooks;
        port.proxy.hooks.unregister(hook);
        let ghost h1 = port.proxy.hooks;
        port.proxy.hooks.release(hook, data);
        proof {
            h0.lemma_step(&h1, NativeCall::Unregister { handle: hook });
            h1.lemma_step(&port.proxy.hooks, NativeCall::Release { handle: hook });
        }
    }
}

impl Port {
    pub closed spec fn proxy_spec(&self) -> Proxy {
        self.proxy
    }

    pub open spec fn wf(&self) -> bool {
        self.proxy_spec().wf()
    }

    pub open spec fn is_live(&self, h: u64) -> bool {
        self.proxy_spec().hooks().is_live(h)
    }

    pub open spec fn history(&self) -> Seq<NativeCall> {
        self.proxy_spec().hooks().history()
    }

    /// Treats `proxy` as a port proxy.
    pub fn from_proxy_unchecked(proxy: Proxy) -> (r: Port)
        ensures
            r.proxy_spec() == proxy,
    {
        Port { proxy }
    }

    pub fn upcast(self) -> (r: Proxy)
        ensures
            r == self.proxy_spec(),
    {
        self.proxy
    }

    pub fn upcast_ref(&self) -> (r: &Proxy)
        ensures
            *r == self.proxy_spec(),
    {
        &self.proxy
    }

    /// Starts a listener with no closures configured.
    #[must_use]
    pub fn add_listener_local(&self) -> (r: PortListenerLocalBuilder<
        impl Fn(&PortInfoRef),
        impl Fn(i32, ParamType, u32, u32, Option<&Pod>),
    >)
        ensures
            r.port_id() == self.proxy_spec().id_spec(),
            r.callbacks().info is None,
            r.callbacks().param is None,
    {
        // The placeholders only fix the types of the empty slots; neither is kept.
        let mut cbs = ListenerLocalCallbacks { info: Some(no_info()), param: Some(no_param()) };
        cbs.info = None;
        cbs.param = None;
        PortListenerLocalBuilder { port_id: self.proxy.id, cbs }
    }

    /// Subscribes to changes of the given parameter kinds. The count sent
    /// along must fit the native 32-bit field.
    pub fn subscribe_params(&mut self, ids: &[ParamType])
        requires
            ids@.len() <= u32::MAX,
        ensures
            final(self).proxy_spec().id_spec() == old(self).proxy_spec().id_spec(),
            final(self).proxy_spec().hooks() == old(self).proxy_spec().hooks(),
            final(self).proxy_spec().requests().len() == old(self).proxy_spec().requests().len() + 1,
            final(self).proxy_spec().requests().drop_last() == old(self).proxy_spec().requests(),
            final(self).proxy_spec().requests().last() matches PortMethod::SubscribeParams { ids: sent, n_ids }
                && sent@ == ids@ && n_ids == ids@.len(),
    {
        let mut sent: Vec<ParamType> = Vec::new();
        let mut i: usize = 0;
        while i < ids.len()
            invariant
                i <= ids@.len(),
                sent@ == ids@.subrange(0, i as int),
            decreases ids@.len() - i,
        {
            sent.push(ids[i]);
            i = i + 1;
        }
        assert(sent@ =~= ids@);
        let n_ids = ids.len() as u32;
        let ghost before = self.proxy.sent@;
        self.proxy.sent.push(PortMethod::SubscribeParams { ids: sent, n_ids });
        assert(self.proxy.sent@.drop_last() =~= before);
    }

    /// Asks for up to `num` parameters from index `start`, tagged with `seq`;
    /// `id` narrows them to one kind, `None` asks for every kind.
    pub fn enum_params(&mut self, seq: i32, id: Option<ParamType>, start: u32, num: u32)
        ensures
            final(self).proxy_spec().id_spec() == old(self).proxy_spec().id_spec(),
            final(self).proxy_spec().hooks() == old(self).proxy_spec().hooks(),
            final(self).proxy_spec().requests().len() == old(self).proxy_spec().requests().len() + 1,
            final(self).proxy_spec().requests().drop_last() == old(self).proxy_spec().requests(),
            final(self).proxy_spec().requests().last() matches PortMethod::EnumParams {
                seq: s,
                id: raw,
                start: b,
                num: n,
            } && s == seq && b == start && n == num && raw == (match id {
                Some(p) => p.0,
                None => ID_ANY,
            }),
    {
        let raw = match id {
            Some(p) => p.as_raw(),
            None => ID_ANY,
        };
        let ghost before = self.proxy.sent@;
        self.proxy.sent.push(PortMethod::EnumParams { seq, id: raw, start, num });
        assert(self.proxy.sent@.drop_last() =~= before);
    }

    /// Delivers an info event to a listener of this port: the info closure
    /// runs once if the listener's table has the info slot set, and nothing
    /// runs otherwise.
    pub fn emit_info<I: Fn(&PortInfoRef), P: Fn(i32, ParamType, u32, u32, Option<&Pod>)>(
        &self,
        listener: &PortListener<I, P>,
        info: &PortInfoRef,
    ) -> (invoked: bool)
        requires
            self.proxy_spec().id_spec() == listener.port_id(),
            self.is_live(listener.hook_spec()),
            listener.wf(),
            listener.callbacks().info matches Some(f) ==> f.requires((info,)),
        ensures
            invoked == listener.events().info,
            listener.callbacks().info matches Some(f) ==> f.ensures((info,), ()),
    {
        if listener.events.info {
            match &listener.data.info {
                Some(f) => {
                    f(info);
                    true
                },
                None => false,
            }
        } else {
            false
        }
    }

    /// Delivers a param event to a listener of this port. The raw id is
    /// decoded into a parameter kind before the param closure, if any, runs.
    pub fn emit_param<I: Fn(&PortInfoRef), P: Fn(i32, ParamType, u32, u32, Option<&Pod>)>(
        &self,
        listener: &PortListener<I, P>,
        seq: i32,
        id: u32,
        index: u32,
        next: u32,
        param: Option<&Pod>,
    ) -> (invoked: bool)
        requires
            self.proxy_spec().id_spec() == listener.port_id(),
            self.is_live(listener.hook_spec()),
            listener.wf(),
            listener.callbacks().param matches Some(f) ==> f.requires((seq, ParamType(id), index, next, param)),
        ensures
            invoked == listener.events().param,
            listener.callbacks().param matches Some(f) ==> f.ensures((seq, ParamType(id), index, next, param), ()),
    {
        if listener.events.param {
            match &listener.data.param {
                Some(f) => {
                    f(seq, ParamType::from_raw(id), index, next, param);
                    true
                },
                None => false,
            }
        } else {
            false
        }
    }
}

/// Selective dispatch: a registered listener's table has a slot set exactly
/// for the closures that were configured, so an event whose closure was not
/// configured invokes nothing, and one whose closure was invokes it.
pub proof fn lemma_selective_dispatch<I: Fn(&PortInfoRef), P: Fn(i32, ParamType, u32, u32, Option<&Pod>)>(
    listener: &PortListener<I, P>,
)
    requires
        listener.wf(),
    ensures
        listener.events().info <==> listener.callbacks().info is Some,
        listener.events().param <==> listener.callbacks().param is Some,
        listener.events().version == PW_VERSION_PORT_EVENTS,
{
}

} // verus!
