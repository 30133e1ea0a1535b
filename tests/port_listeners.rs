use std::cell::Cell;
use std::rc::Rc;

use pipewire::info::PortInfoRef;
use pipewire::ledger::NativeCall;
use pipewire::port::{Port, PortMethod, Proxy, PW_VERSION_PORT_EVENTS};
use pipewire::spa::{ParamType, Pod, DIRECTION_OUTPUT, ID_ANY};

fn record(id: u32) -> PortInfoRef {
    PortInfoRef { id, direction: DIRECTION_OUTPUT, change_mask: 0, props: None, n_params: 0, params: None }
}

#[test]
fn param_only_listener_skips_info() {
    let mut port = Port::from_proxy_unchecked(Proxy::new(4, 1));
    let infos = Rc::new(Cell::new(0u32));
    let params = Rc::new(Cell::new(0u32));
    let p = params.clone();
    let listener = port
        .add_listener_local()
        .param(move |_seq, _id, _index, _next, _pod| p.set(p.get() + 1))
        .register(&mut port, 1);
    let table = listener.events_table();
    assert_eq!(table.version, PW_VERSION_PORT_EVENTS);
    assert!(!table.info);
    assert!(table.param);
    assert!(!port.emit_info(&listener, &record(1)));
    assert_eq!(infos.get(), 0);
    assert_eq!(params.get(), 0);
    listener.remove(&mut port);
}

#[test]
fn both_callbacks_each_invoked_once() {
    let mut port = Port::from_proxy_unchecked(Proxy::new(4, 1));
    let infos = Rc::new(Cell::new(0u32));
    let params = Rc::new(Cell::new(0u32));
    let seen_id = Rc::new(Cell::new(0u32));
    let (i, p, s) = (infos.clone(), params.clone(), seen_id.clone());
    let listener = port
        .add_listener_local()
        .info(move |info: &PortInfoRef| {
            s.set(info.id());
            i.set(i.get() + 1)
        })
        .param(move |_seq, _id, _index, _next, _pod| p.set(p.get() + 1))
        .register(&mut port, 1);
    assert!(port.emit_info(&listener, &record(9)));
    assert!(port.emit_param(&listener, 1, 4, 0, 1, None));
    assert_eq!(infos.get(), 1);
    assert_eq!(params.get(), 1);
    assert_eq!(seen_id.get(), 9);
    listener.remove(&mut port);
}

#[test]
fn param_event_arguments_are_decoded() {
    let mut port = Port::from_proxy_unchecked(Proxy::new(4, 1));
    let got = Rc::new(Cell::new((0i32, 0u32, 0u32, 0u32, 0usize)));
    let g = got.clone();
    let listener = port
        .add_listener_local()
        .param(move |seq: i32, id: ParamType, index: u32, next: u32, pod: Option<&Pod>| {
            g.set((seq, id.as_raw(), index, next, pod.map(|p| p.as_bytes().len()).unwrap_or(99)))
        })
        .register(&mut port, 1);
    let pod = Pod::from_bytes(vec![1, 2, 3]);
    assert!(port.emit_param(&listener, 12, 3, 5, 6, Some(&pod)));
    assert_eq!(got.get(), (12, 3, 5, 6, 3));
    assert!(port.emit_param(&listener, -1, 2, 0, 0, None));
    assert_eq!(got.get(), (-1, 2, 0, 0, 99));
    listener.remove(&mut port);
}

#[test]
fn info_only_listener_skips_param() {
    let mut port = Port::from_proxy_unchecked(Proxy::new(4, 1));
    let infos = Rc::new(Cell::new(0u32));
    let i = infos.clone();
    let listener = port.add_listener_local().info(move |_info: &PortInfoRef| i.set(i.get() + 1)).register(&mut port, 1);
    assert!(!port.emit_param(&listener, 0, 1, 0, 0, None));
    assert!(port.emit_info(&listener, &record(2)));
    assert_eq!(infos.get(), 1);
    listener.remove(&mut port);
}

#[test]
fn later_callback_replaces_earlier() {
    let mut port = Port::from_proxy_unchecked(Proxy::new(4, 1));
    let first = Rc::new(Cell::new(0u32));
    let second = Rc::new(Cell::new(0u32));
    let (a, b) = (first.clone(), second.clone());
    let listener = port
        .add_listener_local()
        .info(move |_info: &PortInfoRef| a.set(a.get() + 1))
        .info(move |_info: &PortInfoRef| b.set(b.get() + 1))
        .register(&mut port, 1);
    assert!(port.emit_info(&listener, &record(2)));
    assert_eq!(first.get(), 0);
    assert_eq!(second.get(), 1);
    listener.remove(&mut port);
}

#[test]
fn listener_removal_order_is_recorded() {
    let mut port = Port::from_proxy_unchecked(Proxy::new(4, 1));
    let token = Rc::new(());
    let held = token.clone();
    let listener = port
        .add_listener_local()
        .info(move |_info: &PortInfoRef| {
            let _ = &held;
        })
        .register(&mut port, 1);
    let other = port.add_listener_local().register(&mut port, 1);
    assert_eq!(listener.hook(), 0);
    assert_eq!(other.hook(), 1);
    assert!(!other.events_table().info && !other.events_table().param);
    listener.remove(&mut port);
    assert_eq!(Rc::strong_count(&token), 1);
    other.remove(&mut port);
    let expected = vec![
        NativeCall::Register { handle: 0 },
        NativeCall::Register { handle: 1 },
        NativeCall::Unregister { handle: 0 },
        NativeCall::Release { handle: 0 },
        NativeCall::Unregister { handle: 1 },
        NativeCall::Release { handle: 1 },
    ];
    assert_eq!(port.upcast_ref().listener_calls(), &expected);
}

#[test]
fn subscribe_params_sends_ids_and_count() {
    let mut port = Port::from_proxy_unchecked(Proxy::new(8, 1));
    port.subscribe_params(&[ParamType::from_raw(3), ParamType::from_raw(4)]);
    port.subscribe_params(&[]);
    let proxy = port.upcast();
    assert_eq!(proxy.id(), 8);
    let sent = proxy.sent();
    assert_eq!(sent.len(), 2);
    match &sent[0] {
        PortMethod::SubscribeParams { ids, n_ids } => {
            assert_eq!(ids, &vec![ParamType(3), ParamType(4)]);
            assert_eq!(*n_ids, 2);
        }
        other => panic!("unexpected {:?}", other),
    }
    match &sent[1] {
        PortMethod::SubscribeParams { ids, n_ids } => {
            assert!(ids.is_empty());
            assert_eq!(*n_ids, 0);
        }
        other => panic!("unexpected {:?}", other),
    }
}

#[test]
fn enum_params_maps_absent_id_to_any() {
    let mut port = Port::from_proxy_unchecked(Proxy::new(8, 1));
    port.enum_params(5, None, 0, u32::MAX);
    port.enum_params(6, Some(ParamType::from_raw(4)), 2, 10);
    let sent = port.upcast_ref().sent();
    match &sent[0] {
        PortMethod::EnumParams { seq, id, start, num } => {
            assert_eq!((*seq, *id, *start, *num), (5, ID_ANY, 0, u32::MAX));
        }
        other => panic!("unexpected {:?}", other),
    }
    match &sent[1] {
        PortMethod::EnumParams { seq, id, start, num } => {
            assert_eq!((*seq, *id, *start, *num), (6, 4, 2, 10));
        }
        other => panic!("unexpected {:?}", other),
    }
    assert_eq!(ID_ANY, 0xffff_ffff);
}

#[test]
fn builder_is_bound_to_its_port() {
    let port = Port::from_proxy_unchecked(Proxy::new(21, 6));
    assert_eq!(port.upcast_ref().owner(), 6);
    let mut port = port;
    let listener = port.add_listener_local().register(&mut port, 6);
    assert_eq!(listener.hook(), 0);
    listener.remove(&mut port);
}
