use pipewire::info::{PortInfo, PortInfoRef};
use pipewire::mask::{PortChange, PortChangeMask, PORT_CHANGE_MASK_PARAMS, PORT_CHANGE_MASK_PROPS};
use pipewire::spa::{DictRef, Direction, ParamInfo, ParamType, DIRECTION_INPUT, DIRECTION_OUTPUT};

fn descriptors(n: u32) -> Vec<ParamInfo> {
    (0..n).map(|i| ParamInfo { id: ParamType(i + 1), flags: 3 }).collect()
}

#[test]
fn info_view_projects_fields() {
    let info = PortInfoRef {
        id: 7,
        direction: DIRECTION_OUTPUT,
        change_mask: 0,
        props: None,
        n_params: 3,
        params: Some(descriptors(3)),
    };
    assert_eq!(info.id(), 7);
    assert_eq!(info.direction(), Direction::Output);
    assert!(info.props().is_none());
    let params = info.params();
    assert_eq!(params.len(), 3);
    assert_eq!(params.as_ptr(), info.params.as_ref().unwrap().as_ptr());
    assert_eq!(params[2].id, ParamType(3));
}

#[test]
fn params_absent_or_zero_count_is_empty() {
    let absent = PortInfoRef { id: 1, direction: DIRECTION_INPUT, change_mask: 0, props: None, n_params: 4, params: None };
    assert!(absent.params().is_empty());
    let zero = PortInfoRef {
        id: 1,
        direction: DIRECTION_INPUT,
        change_mask: 0,
        props: None,
        n_params: 0,
        params: Some(descriptors(2)),
    };
    assert!(zero.params().is_empty());
    let prefix = PortInfoRef {
        id: 1,
        direction: DIRECTION_INPUT,
        change_mask: 0,
        props: None,
        n_params: 2,
        params: Some(descriptors(5)),
    };
    assert_eq!(prefix.params().len(), 2);
    assert_eq!(absent.direction(), Direction::Input);
}

#[test]
fn props_present_when_record_has_them() {
    let dict = DictRef::new(vec![("port.name".to_string(), "out_FL".to_string())]);
    let info = PortInfoRef {
        id: 2,
        direction: DIRECTION_INPUT,
        change_mask: PORT_CHANGE_MASK_PROPS,
        props: Some(dict),
        n_params: 0,
        params: None,
    };
    let props = info.props().unwrap();
    assert_eq!(props.len(), 1);
    assert_eq!(props.items()[0].1, "out_FL");
    assert!(info.change_mask().contains(PortChangeMask::props()));
}

#[test]
fn owned_info_round_trips() {
    let record = PortInfoRef { id: 11, direction: DIRECTION_OUTPUT, change_mask: 2, props: None, n_params: 0, params: None };
    let owned = PortInfo::new(Box::new(record));
    assert_eq!(owned.as_ref().id(), 11);
    let raw = owned.into_raw();
    assert_eq!(raw.id, 11);
    let again = PortInfo::from_raw(Some(raw));
    assert_eq!(again.as_ref().change_mask().bits(), 2);
}

#[test]
fn mask_with_both_bits_decodes_to_both_flags() {
    let mask = PortChangeMask::from_bits_retain(PORT_CHANGE_MASK_PROPS | PORT_CHANGE_MASK_PARAMS);
    assert_eq!(mask.flags(), vec![PortChange::Props, PortChange::Params]);
    assert!(mask.contains(PortChangeMask::props()));
    assert!(mask.contains(PortChangeMask::params()));
    assert_eq!(mask, PortChangeMask::all());
}

#[test]
fn zero_mask_decodes_to_nothing() {
    let mask = PortChangeMask::from_bits_retain(0);
    assert!(mask.flags().is_empty());
    assert!(mask.is_empty());
    assert_eq!(mask, PortChangeMask::empty());
    assert!(!mask.contains(PortChangeMask::props()));
}

#[test]
fn unknown_bits_kept_but_not_named() {
    let mask = PortChangeMask::from_bits_retain(0x10 | PORT_CHANGE_MASK_PARAMS);
    assert_eq!(mask.bits(), 0x12);
    assert_eq!(mask.flags(), vec![PortChange::Params]);
    assert!(PortChangeMask::from_bits(0x12).is_none());
    assert_eq!(PortChangeMask::from_bits(1), Some(PortChangeMask::props()));
    assert_eq!(PortChangeMask::props().union(PortChangeMask::params()).bits(), 3);
}

#[test]
fn direction_codes() {
    assert_eq!(Direction::from_raw(0), Direction::Input);
    assert_eq!(Direction::from_raw(1), Direction::Output);
    assert_eq!(Direction::Output.as_raw(), 1);
    assert_eq!(Direction::Input.reverse(), Direction::Output);
    assert_eq!(ParamType::from_raw(9).as_raw(), 9);
}
