use peridot2::display::WlDisplayConnection;
use peridot2::registry::WlRegistry;
use peridot2::surface::WlSurfaceError;
use peridot2::sys::{wl_array, wl_interface, wl_message};
use peridot2::wire::{parse_signature, WlArgKind, WlArgValue};
use peridot2::xdg_popup::{XDGPopup, XDGPopupError};
use peridot2::xdg_positioner::{
    XDGPositioner, XDGPositionerAnchor, XDGPositionerConstraintAdjustment, XDGPositionerError,
    XDGPositionerGravity,
};
use peridot2::xdg_surface::{XDGSurface, XDGSurfaceError};
use peridot2::xdg_toplevel::{
    XDGToplevel, XDGToplevelError, XDGToplevelResizeEdge, XDGToplevelState,
    XDGToplevelWMCapabilities,
};
use peridot2::xdg_wm_base::{XDGWMBase, XDGWMBaseError};

struct NoListener;

impl peridot2::registry::WlRegistryListener for NoListener {
    fn global(&mut self, _sender: &mut WlRegistry, _name: u32, _interface: &str, _version: u32) {}

    fn global_remove(&mut self, _sender: &mut WlRegistry, _name: u32) {}
}

#[test]
fn window_setup_marshals_the_expected_requests() {
    let mut conn = WlDisplayConnection::new();
    assert_eq!(conn.0 .0 .0.id, 1);
    assert_eq!(conn.0 .0 .0.version, 1);

    let mut registry = conn.0.get_registry(2);
    assert_eq!(conn.0 .0 .0.sent.len(), 1);
    assert_eq!(conn.0 .0 .0.sent[0].opcode, 1);
    assert_eq!(conn.0 .0 .0.sent[0].args, vec![WlArgValue::NewId(2)]);
    assert_eq!(registry.0 .0.id, 2);

    let mut compositor = registry
        .0
        .bind::<peridot2::compositor::WlCompositor>(13, 6, 3);
    assert_eq!(registry.0 .0.sent.len(), 1);
    assert_eq!(
        registry.0 .0.sent[0].args,
        vec![
            WlArgValue::Uint(13),
            WlArgValue::Str(String::from("wl_compositor")),
            WlArgValue::Uint(6),
            WlArgValue::NewId(3),
        ]
    );

    let mut wm_base = registry.0.bind::<XDGWMBase>(14, 6, 4);
    assert_eq!(
        registry.0 .0.sent[1].args[1],
        WlArgValue::Str(String::from("xdg_wm_base"))
    );

    let mut surface = compositor.create_surface(5);
    assert_eq!(compositor.0.sent.len(), 1);
    assert_eq!(compositor.0.sent[0].opcode, 0);
    assert_eq!(surface.0.id, 5);
    assert_eq!(surface.0.version, 6);

    let mut xdg_surface = wm_base.create_xdg_surface(&mut surface, 6);
    assert_eq!(wm_base.0.sent.len(), 1);
    assert_eq!(wm_base.0.sent[0].opcode, 2);
    assert_eq!(
        wm_base.0.sent[0].args,
        vec![WlArgValue::NewId(6), WlArgValue::Object(Some(5))]
    );

    let mut toplevel = xdg_surface.get_toplevel(7);
    assert_eq!(xdg_surface.0.sent[0].opcode, 1);

    toplevel.set_app_id(String::from("io.ct2.peridot2"));
    toplevel.set_title(String::from("Peridot 2"));
    assert_eq!(toplevel.0.sent.len(), 2);
    assert_eq!(toplevel.0.sent[0].opcode, 3);
    assert_eq!(
        toplevel.0.sent[0].args,
        vec![WlArgValue::Str(String::from("io.ct2.peridot2"))]
    );
    assert_eq!(toplevel.0.sent[1].opcode, 2);

    let callback = surface.frame(8);
    assert_eq!(surface.0.sent.len(), 1);
    assert_eq!(surface.0.sent[0].opcode, 3);
    assert_eq!(callback.0.id, 8);

    surface.commit();
    assert_eq!(surface.0.sent[1].opcode, 6);
    assert!(surface.0.sent[1].args.is_empty());
}

#[test]
fn ack_and_pong_answer_with_the_serial() {
    let mut conn = WlDisplayConnection::new();
    let mut registry = conn.0.get_registry(2);
    let mut wm_base = registry.0.bind::<XDGWMBase>(1, 6, 3);
    wm_base.pong(4141);
    assert_eq!(wm_base.0.sent[0].opcode, 3);
    assert_eq!(wm_base.0.sent[0].args, vec![WlArgValue::Uint(4141)]);

    let mut compositor = registry.0.bind::<peridot2::compositor::WlCompositor>(2, 6, 4);
    let mut surface = compositor.create_surface(5);
    let mut xdg_surface = wm_base.create_xdg_surface(&mut surface, 6);
    xdg_surface.ack_configure(77);
    assert_eq!(xdg_surface.0.sent[0].opcode, 4);
    assert_eq!(xdg_surface.0.sent[0].args, vec![WlArgValue::Uint(77)]);

    xdg_surface.set_window_geometry(0, 0, 640, 480);
    assert_eq!(xdg_surface.0.sent[1].opcode, 3);
    assert_eq!(
        xdg_surface.0.sent[1].args,
        vec![
            WlArgValue::Int(0),
            WlArgValue::Int(0),
            WlArgValue::Int(640),
            WlArgValue::Int(480),
        ]
    );
}

#[test]
fn destroy_is_marked_and_is_last() {
    let mut conn = WlDisplayConnection::new();
    let mut registry = conn.0.get_registry(2);
    let mut compositor = registry.0.bind::<peridot2::compositor::WlCompositor>(1, 6, 3);
    let mut surface = compositor.create_surface(4);
    surface.commit();
    surface.destroy();
    assert_eq!(surface.0.sent.len(), 2);
    assert!(!surface.0.sent[0].destroys);
    assert!(surface.0.sent[1].destroys);
    assert_eq!(surface.0.sent[1].opcode, 0);
}

#[test]
fn a_listener_attaches_only_once() {
    let mut conn = WlDisplayConnection::new();
    let mut registry = conn.0.get_registry(2);
    let mut listener = NoListener;
    assert!(registry.0.add_listener(&mut listener).is_ok());
    assert!(registry.0.add_listener(&mut listener).is_err());
}

#[test]
fn interface_tables_match_their_declared_signatures() {
    let wm_base = XDGWMBase::interface();
    assert_eq!(wm_base.name, "xdg_wm_base");
    assert_eq!(wm_base.version, 6);
    assert_eq!(wm_base.method_count, 4);
    assert_eq!(wm_base.methods[2].name, "create_xdg_surface");
    assert_eq!(wm_base.methods[2].signature, "no");
    assert_eq!(
        wm_base.methods[2].types,
        vec![
            Some(String::from("xdg_surface")),
            Some(String::from("wl_surface")),
        ]
    );
    assert_eq!(wm_base.event_count, 1);
    assert_eq!(wm_base.events[0].name, "ping");

    let xdg_surface = XDGSurface::interface();
    assert_eq!(xdg_surface.name, "xdg_surface");
    assert_eq!(xdg_surface.method_count, 5);
    assert_eq!(xdg_surface.methods[3].signature, "iiii");

    let toplevel = XDGToplevel::interface();
    assert_eq!(toplevel.name, "xdg_toplevel");
    assert_eq!(toplevel.method_count, 14);
    assert_eq!(toplevel.methods[5].name, "move");
    assert_eq!(toplevel.methods[5].signature, "ou");
    assert_eq!(toplevel.events[2].name, "configure_bounds");
    assert_eq!(toplevel.events[2].signature, "4ii");

    let positioner = XDGPositioner::interface();
    assert_eq!(positioner.name, "xdg_positioner");
    assert_eq!(positioner.method_count, 10);
    assert_eq!(positioner.event_count, 0);

    let popup = XDGPopup::interface();
    assert_eq!(popup.name, "xdg_popup");
    assert_eq!(popup.method_count, 3);
    assert_eq!(popup.events[1].name, "popup_done");
}

#[test]
fn toplevel_requests_fit_the_table_signatures() {
    // What each method marshals must parse out of the table it is
    // declared in.
    let toplevel_table = XDGToplevel::interface();
    let mut conn = WlDisplayConnection::new();
    let mut registry = conn.0.get_registry(2);
    let mut wm_base = registry.0.bind::<XDGWMBase>(1, 6, 3);
    let mut compositor = registry.0.bind::<peridot2::compositor::WlCompositor>(2, 6, 4);
    let mut surface = compositor.create_surface(5);
    let mut xdg_surface = wm_base.create_xdg_surface(&mut surface, 6);
    let mut toplevel = xdg_surface.get_toplevel(7);

    toplevel.set_title(String::from("t"));
    toplevel.set_max_size(0, 0);
    toplevel.set_parent(None);
    toplevel.set_maximized();

    for req in &toplevel.0.sent {
        let specs = parse_signature(&toplevel_table.methods[req.opcode as usize].signature);
        assert_eq!(specs.len(), req.args.len());
        for (value, spec) in req.args.iter().zip(specs.iter()) {
            let fits = match spec.kind {
                WlArgKind::Int => matches!(value, WlArgValue::Int(_)),
                WlArgKind::Uint => matches!(value, WlArgValue::Uint(_)),
                WlArgKind::Fixed => matches!(value, WlArgValue::Fixed(_)),
                WlArgKind::Str => matches!(value, WlArgValue::Str(_)),
                WlArgKind::Object => match value {
                    WlArgValue::Object(o) => spec.nullable || o.is_some(),
                    _ => false,
                },
                WlArgKind::NewId => matches!(value, WlArgValue::NewId(_)),
                WlArgKind::Array => matches!(value, WlArgValue::Array(_)),
                WlArgKind::Fd => matches!(value, WlArgValue::Fd(_)),
            };
            assert!(fits);
        }
    }
}

#[test]
fn wl_interface_and_wl_message_carry_their_parts() {
    let msg = wl_message::new("grab", "ou", vec![Some(String::from("wl_seat")), None]);
    assert_eq!(msg.name, "grab");
    assert_eq!(msg.signature, "ou");
    assert_eq!(msg.types.len(), 2);

    let iface = wl_interface::new("wl_registry", 1, vec![msg], Vec::new());
    assert_eq!(iface.name, "wl_registry");
    assert_eq!(iface.version, 1);
    assert_eq!(iface.method_count, 1);
    assert_eq!(iface.event_count, 0);
}

#[test]
fn error_codes_round_trip() {
    assert_eq!(WlSurfaceError::InvalidScale.protocol_value(), 0);
    assert_eq!(WlSurfaceError::DefunctRoleObject.protocol_value(), 4);
    assert_eq!(
        WlSurfaceError::from_protocol(2),
        Some(WlSurfaceError::InvalidSize)
    );
    assert_eq!(WlSurfaceError::from_protocol(5), None);

    assert_eq!(XDGWMBaseError::Unresponsive.protocol_value(), 6);
    assert_eq!(XDGWMBaseError::from_protocol(0), Some(XDGWMBaseError::Role));
    assert_eq!(XDGWMBaseError::from_protocol(7), None);

    assert_eq!(XDGSurfaceError::NotConstructed.protocol_value(), 1);
    assert_eq!(XDGSurfaceError::from_protocol(0), None);
    assert_eq!(
        XDGSurfaceError::from_protocol(6),
        Some(XDGSurfaceError::DefunctRoleObject)
    );

    assert_eq!(XDGToplevelError::InvalidSize.protocol_value(), 2);
    assert_eq!(XDGToplevelError::from_protocol(3), None);

    assert_eq!(XDGPositionerError::InvalidInput.protocol_value(), 0);
    assert_eq!(XDGPositionerError::from_protocol(1), None);

    assert_eq!(XDGPopupError::InvalidGrab.protocol_value(), 0);
    assert_eq!(XDGPopupError::from_protocol(1), None);
}

#[test]
fn enum_values_match_the_protocol() {
    assert_eq!(XDGToplevelResizeEdge::NoEdge.protocol_value(), 0);
    assert_eq!(XDGToplevelResizeEdge::BottomRight.protocol_value(), 10);
    assert_eq!(XDGToplevelResizeEdge::from_protocol(3), None);
    assert_eq!(XDGToplevelResizeEdge::from_protocol(7), None);
    assert_eq!(
        XDGToplevelResizeEdge::from_protocol(9),
        Some(XDGToplevelResizeEdge::TopRight)
    );

    assert_eq!(XDGToplevelState::Maximized.protocol_value(), 1);
    assert_eq!(XDGToplevelState::Suspeneded.protocol_value(), 9);
    assert_eq!(XDGToplevelState::from_protocol(0), None);

    assert_eq!(XDGToplevelWMCapabilities::WindowMenu.protocol_value(), 1);
    assert_eq!(XDGToplevelWMCapabilities::Minimize.protocol_value(), 4);
    assert_eq!(XDGToplevelWMCapabilities::from_protocol(5), None);

    assert_eq!(XDGPositionerAnchor::NoAnchor.protocol_value(), 0);
    assert_eq!(XDGPositionerAnchor::BottomRight.protocol_value(), 8);
    assert_eq!(XDGPositionerGravity::Left.protocol_value(), 3);
    assert_eq!(
        XDGPositionerGravity::from_protocol(8),
        Some(XDGPositionerGravity::BottomRight)
    );
}

#[test]
fn state_arrays_parse_value_by_value() {
    let arr = wl_array { data: vec![1, 4, 42] };
    assert_eq!(
        XDGToplevelState::from_array(&arr),
        vec![
            Some(XDGToplevelState::Maximized),
            Some(XDGToplevelState::Activated),
            None,
        ]
    );

    let caps = wl_array { data: vec![2, 3] };
    assert_eq!(
        XDGToplevelWMCapabilities::from_array(&caps),
        vec![
            Some(XDGToplevelWMCapabilities::Maximize),
            Some(XDGToplevelWMCapabilities::Fullscreen),
        ]
    );

    let empty = wl_array { data: vec![] };
    assert_eq!(XDGToplevelState::from_array(&empty), vec![]);
    assert_eq!(empty.as_slice_of().len(), 0);
}

#[test]
fn constraint_adjustment_is_a_bit_set() {
    let none = XDGPositionerConstraintAdjustment::none();
    assert_eq!(none.bits, 0);

    let slide_x = XDGPositionerConstraintAdjustment::from_bits(1).unwrap();
    let flip_y = XDGPositionerConstraintAdjustment::from_bits(8).unwrap();
    let both = slide_x.union(flip_y);
    assert_eq!(both.bits, 9);
    assert!(both.contains(slide_x));
    assert!(both.contains(flip_y));
    assert!(!slide_x.contains(both));

    assert!(XDGPositionerConstraintAdjustment::from_bits(64).is_none());
    assert!(XDGPositionerConstraintAdjustment::from_bits(63).is_some());
}
