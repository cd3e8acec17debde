use dreamloader::constants::{
    do_verb, VerbOutcome, CONNECT_E_NOCONNECTION, E_NOTIMPL, OLEIVERB_HIDE,
    OLEIVERB_INPLACEACTIVATE, OLEIVERB_OPEN, OLEIVERB_SHOW, OLEOBJ_S_INVALIDVERB, S_OK,
};
use dreamloader::structs::{
    find_connection_point, get_guid, DataViewAspect, Guid, QAControl, VariantBool,
};
use dreamloader::window::{host_message_action, HostMessageAction};

#[test]
fn variant_bool_conversions() {
    assert!(VariantBool::from(true) == VariantBool::True);
    assert!(VariantBool::from(false) == VariantBool::False);
    assert!(bool::from(VariantBool::True));
    assert!(!bool::from(VariantBool::False));
    assert_eq!(VariantBool::True.abi_value(), 0xFFFF);
    assert_eq!(VariantBool::False.abi_value(), 0);
    for b in [true, false] {
        assert_eq!(bool::from(VariantBool::from(b)), b);
    }
}

#[test]
fn data_view_aspect_values() {
    assert_eq!(DataViewAspect::Content.abi_value(), 1);
    assert_eq!(DataViewAspect::Thumbnail.abi_value(), 2);
    assert_eq!(DataViewAspect::Icon.abi_value(), 4);
    assert_eq!(DataViewAspect::DocPrin.abi_value(), 8);
}

#[test]
fn verbs() {
    assert_eq!(do_verb(OLEIVERB_SHOW), VerbOutcome::Builtin);
    assert_eq!(do_verb(OLEIVERB_OPEN), VerbOutcome::Builtin);
    assert_eq!(do_verb(OLEIVERB_HIDE), VerbOutcome::Builtin);
    assert_eq!(do_verb(OLEIVERB_INPLACEACTIVATE), VerbOutcome::InPlaceActivate);
    assert_eq!(do_verb(5), VerbOutcome::Unknown(OLEOBJ_S_INVALIDVERB));
    assert_eq!(do_verb(0), VerbOutcome::Unknown(E_NOTIMPL));
    assert_eq!(do_verb(-4), VerbOutcome::Unknown(E_NOTIMPL));
    assert_eq!(do_verb(-6).hresult(), E_NOTIMPL);
    assert_eq!(do_verb(1).hresult(), 262528);
    assert_eq!(do_verb(OLEIVERB_INPLACEACTIVATE).hresult(), S_OK);
    assert_eq!(E_NOTIMPL, 0x80004001u32 as i32);
}

#[test]
fn quick_activate_clears_control() {
    let mut c = QAControl {
        self_size: 24,
        misc_status: 1,
        view_status: 2,
        event_cookie: 3,
        prop_notify_cookie: 4,
        pointer_activation_policy: 5,
    };
    c.quick_activate();
    assert_eq!(
        c,
        QAControl {
            self_size: 24,
            misc_status: 0,
            view_status: 0,
            event_cookie: 0,
            prop_notify_cookie: 0,
            pointer_activation_policy: 0,
        }
    );
}

#[test]
fn guids() {
    let g = get_guid(1);
    assert_eq!(g.data1, 0xD30C1661);
    assert_eq!(g.data2, 0xCDAF);
    assert_eq!(g.data3, 0x11D0);
    assert_eq!(g.data4, [0x8A, 0x3E, 0x00, 0xC0, 0x4F, 0xC9, 0xE2, 0x6E]);
    let riid = Guid {
        data1: 0xDB526CC0,
        data2: 0xD188,
        data3: 0x11CD,
        data4: [0xAD, 0x48, 0x00, 0xAA, 0x00, 0x3C, 0x9C, 0xB6],
    };
    assert_eq!(find_connection_point(&riid), CONNECT_E_NOCONNECTION);
    assert_eq!(CONNECT_E_NOCONNECTION, 0x80040200u32 as i32);
}

#[test]
fn host_window_messages() {
    assert_eq!(
        host_message_action(0x0005),
        HostMessageAction { arm_timer: true, log_focus: false, log_message: false, process_events: false }
    );
    assert_eq!(
        host_message_action(0x0113),
        HostMessageAction { arm_timer: false, log_focus: true, log_message: false, process_events: false }
    );
    assert_eq!(
        host_message_action(0x0400),
        HostMessageAction { arm_timer: false, log_focus: false, log_message: true, process_events: true }
    );
    assert_eq!(
        host_message_action(0x0001),
        HostMessageAction { arm_timer: false, log_focus: false, log_message: true, process_events: false }
    );
}
