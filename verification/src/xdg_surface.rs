//! The xdg_surface role: the desktop-window base role of a surface,
//! from which a toplevel or popup is derived.

use vstd::prelude::*;

use crate::sys::{lemma_sent_one_log, proxy_fresh, sent_one, wl_interface, wl_message, wl_proxy};
use crate::wire::{log_wf, sig_args, sig_args_from, WlArgKind, WlArgSpec, WlArgValue};
use crate::xdg_toplevel::{OwnedXDGToplevel, XDGToplevel};
use crate::{Interface, OwnableInterface};

verus! {

/// The protocol error codes xdg_surface can raise; their codes start
/// at 1.
#[derive(Clone, Copy, PartialEq, Eq, Structural, Debug)]
pub enum XDGSurfaceError {
    NotConstructed,
    AlreadyConstructed,
    UnconfiguredBuffer,
    InvalidSerial,
    InvalidSize,
    DefunctRoleObject,
}

impl XDGSurfaceError {
    /// The numeric code of this error on the wire.
    pub open spec fn spec_value(self) -> u32 {
        match self {
            XDGSurfaceError::NotConstructed => 1,
            XDGSurfaceError::AlreadyConstructed => 2,
            XDGSurfaceError::UnconfiguredBuffer => 3,
            XDGSurfaceError::InvalidSerial => 4,
            XDGSurfaceError::InvalidSize => 5,
            XDGSurfaceError::DefunctRoleObject => 6,
        }
    }

    /// The error named by a numeric code, `None` for an unknown code.
    pub open spec fn spec_from(v: u32) -> Option<XDGSurfaceError> {
        if v == 1 {
            Option::Some(XDGSurfaceError::NotConstructed)
        } else if v == 2 {
            Option::Some(XDGSurfaceError::AlreadyConstructed)
        } else if v == 3 {
            Option::Some(XDGSurfaceError::UnconfiguredBuffer)
        } else if v == 4 {
            Option::Some(XDGSurfaceError::InvalidSerial)
        } else if v == 5 {
            Option::Some(XDGSurfaceError::InvalidSize)
        } else if v == 6 {
            Option::Some(XDGSurfaceError::DefunctRoleObject)
        } else {
            Option::None
        }
    }

    /// The numeric code of this error on the wire.
    pub fn protocol_value(self) -> (r: u32)
        ensures
            r == self.spec_value(),
            Self::spec_from(r) == Some(self),
    {
        match self {
            XDGSurfaceError::NotConstructed => 1,
            XDGSurfaceError::AlreadyConstructed => 2,
            XDGSurfaceError::UnconfiguredBuffer => 3,
            XDGSurfaceError::InvalidSerial => 4,
            XDGSurfaceError::InvalidSize => 5,
            XDGSurfaceError::DefunctRoleObject => 6,
        }
    }

    /// The error named by a numeric code, `None` if and only if the code
    /// is unknown.
    pub fn from_protocol(v: u32) -> (r: Option<XDGSurfaceError>)
        ensures
            r == Self::spec_from(v),
            r matches Some(e) ==> e.spec_value() == v,
            r is None <==> (v == 0 || v > 6),
    {
        if v == 1 {
            Some(XDGSurfaceError::NotConstructed)
        } else if v == 2 {
            Some(XDGSurfaceError::AlreadyConstructed)
        } else if v == 3 {
            Some(XDGSurfaceError::UnconfiguredBuffer)
        } else if v == 4 {
            Some(XDGSurfaceError::InvalidSerial)
        } else if v == 5 {
            Some(XDGSurfaceError::InvalidSize)
        } else if v == 6 {
            Some(XDGSurfaceError::DefunctRoleObject)
        } else {
            None
        }
    }
}

/// What a client does with xdg_surface's `configure` event.
pub trait XDGSurfaceListener {
    fn configure(&mut self, sender: &mut XDGSurface, serial: u32);
}

/// An xdg_surface object.
pub struct XDGSurface(pub wl_proxy);

/// An xdg_surface object together with its ownership.
pub type OwnedXDGSurface = XDGSurface;

impl Interface for XDGSurface {
    open spec fn interface_name() -> Seq<char> {
        "xdg_surface"@
    }

    /// destroy (0) carries nothing; get_toplevel (1) creates one object;
    /// get_popup (2) creates one object over an optional parent and a
    /// positioner; set_window_geometry (3) carries a rectangle;
    /// ack_configure (4) answers a configure's serial.
    open spec fn method_args(op: int) -> Option<Seq<WlArgSpec>> {
        if op == 0 {
            Option::Some(seq![])
        } else if op == 1 {
            Option::Some(seq![WlArgSpec { kind: WlArgKind::NewId, nullable: false }])
        } else if op == 2 {
            Option::Some(
                seq![
                    WlArgSpec { kind: WlArgKind::NewId, nullable: false },
                    WlArgSpec { kind: WlArgKind::Object, nullable: true },
                    WlArgSpec { kind: WlArgKind::Object, nullable: false },
                ],
            )
        } else if op == 3 {
            Option::Some(
                seq![
                    WlArgSpec { kind: WlArgKind::Int, nullable: false },
                    WlArgSpec { kind: WlArgKind::Int, nullable: false },
                    WlArgSpec { kind: WlArgKind::Int, nullable: false },
                    WlArgSpec { kind: WlArgKind::Int, nullable: false },
                ],
            )
        } else if op == 4 {
            Option::Some(seq![WlArgSpec { kind: WlArgKind::Uint, nullable: false }])
        } else {
            Option::None
        }
    }

    fn name() -> (r: String) {
        "xdg_surface".to_owned()
    }
}

impl OwnableInterface for XDGSurface {
    type OwnedType = OwnedXDGSurface;

    open spec fn owned_proxy(owned: &OwnedXDGSurface) -> wl_proxy {
        owned.0
    }

    fn take_from_proxy(p: wl_proxy) -> (r: OwnedXDGSurface) {
        XDGSurface(p)
    }
}

impl XDGSurface {
    /// Every request sent on the object is well formed against its
    /// method table.
    pub open spec fn wf(self) -> bool {
        log_wf(self.0.sent@, |op: int| Self::method_args(op))
    }

    /// The interface description this library speaks: version 6 of
    /// xdg_surface. Each method's declared signature parses to the
    /// arguments `method_args` gives for its opcode.
    pub fn interface() -> (r: wl_interface)
        ensures
            r.wf(),
            r@.name == "xdg_surface"@,
            r@.version == 6,
            r@.methods.len() == 5,
            r@.methods[0].name == "destroy"@,
            r@.methods[1].name == "get_toplevel"@,
            r@.methods[2].name == "get_popup"@,
            r@.methods[3].name == "set_window_geometry"@,
            r@.methods[4].name == "ack_configure"@,
            r@.methods[1].types =~= seq![Option::Some("xdg_toplevel"@)],
            r@.methods[2].types =~= seq![
                Option::Some("xdg_popup"@),
                Option::Some("xdg_surface"@),
                Option::Some("xdg_positioner"@),
            ],
            forall|op: int|
                0 <= op < 5 ==> Self::method_args(op) == Option::Some(
                    #[trigger] sig_args(r@.methods[op].signature),
                ),
            r@.events.len() == 1,
            r@.events[0].name == "configure"@,
            sig_args(r@.events[0].signature) =~= seq![
                WlArgSpec { kind: WlArgKind::Uint, nullable: false },
            ],
    {
        let mut methods: Vec<wl_message> = Vec::new();
        methods.push(wl_message::new("destroy", "", Vec::new()));
        methods.push(wl_message::new("get_toplevel", "n", vec![Some("xdg_toplevel".to_owned())]));
        methods.push(
            wl_message::new(
                "get_popup",
                "n?oo",
                vec![
                    Some("xdg_popup".to_owned()),
                    Some("xdg_surface".to_owned()),
                    Some("xdg_positioner".to_owned()),
                ],
            ),
        );
        methods.push(
            wl_message::new("set_window_geometry", "iiii", vec![None, None, None, None]),
        );
        methods.push(wl_message::new("ack_configure", "u", vec![None]));
        let mut events: Vec<wl_message> = Vec::new();
        events.push(wl_message::new("configure", "u", vec![None]));
        let r = wl_interface::new("xdg_surface", 6, methods, events);
        proof {
            reveal_strlit("");
            reveal_strlit("n");
            reveal_strlit("n?oo");
            reveal_strlit("iiii");
            reveal_strlit("u");
            reveal_with_fuel(sig_args_from, 6);
            assert(sig_args(""@) =~= Seq::<WlArgSpec>::empty());
            assert(sig_args("n"@) =~= seq![WlArgSpec { kind: WlArgKind::NewId, nullable: false }]);
            assert(sig_args("n?oo"@) =~= seq![
                WlArgSpec { kind: WlArgKind::NewId, nullable: false },
                WlArgSpec { kind: WlArgKind::Object, nullable: true },
                WlArgSpec { kind: WlArgKind::Object, nullable: false },
            ]);
            assert(sig_args("iiii"@) =~= seq![
                WlArgSpec { kind: WlArgKind::Int, nullable: false },
                WlArgSpec { kind: WlArgKind::Int, nullable: false },
                WlArgSpec { kind: WlArgKind::Int, nullable: false },
                WlArgSpec { kind: WlArgKind::Int, nullable: false },
            ]);
            assert(sig_args("u"@) =~= seq![WlArgSpec { kind: WlArgKind::Uint, nullable: false }]);
        }
        r
    }

    /// Attaches a listener; fails if and only if one is already attached.
    pub fn add_listener<L: XDGSurfaceListener>(&mut self, _listener: &mut L) -> (r: Result<
        (),
        (),
    >)
        ensures
            old(self).0.listener ==> r is Err && *final(self) == *old(self),
            !old(self).0.listener ==> r is Ok && final(self).0 == (wl_proxy {
                listener: true,
                ..old(self).0
            }),
    {
        self.0.attach_listener()
    }

    /// Destroys the object, marshalling `destroy` (opcode 0); nothing
    /// more can be sent on it afterwards.
    pub fn destroy(&mut self)
        requires
            old(self).wf(),
            old(self).0.live(),
        ensures
            final(self).wf(),
            !final(self).0.live(),
            sent_one(old(self).0, final(self).0, 0, seq![], true),
    {
        self.0.send(0, Vec::new(), true);
        proof {
            lemma_sent_one_log(
                old(self).0,
                self.0,
                0,
                seq![],
                true,
                |op: int| Self::method_args(op),
            );
            assert(self.0.sent@[self.0.sent@.len() - 1].destroys);
        }
    }

    /// Gives the xdg_surface the toplevel role, marshalling
    /// `get_toplevel` (opcode 1) with the id the toplevel gets.
    pub fn get_toplevel(&mut self, new_id: u32) -> (r: OwnedXDGToplevel)
        requires
            old(self).wf(),
            old(self).0.live(),
        ensures
            final(self).wf(),
            final(self).0.live(),
            sent_one(old(self).0, final(self).0, 1, seq![WlArgValue::NewId(new_id)], false),
            proxy_fresh(r.0, new_id, old(self).0.version),
            r.wf(),
    {
        let version = self.0.version;
        self.0.send(1, vec![WlArgValue::NewId(new_id)], false);
        proof {
            lemma_sent_one_log(
                old(self).0,
                self.0,
                1,
                seq![WlArgValue::NewId(new_id)],
                false,
                |op: int| Self::method_args(op),
            );
        }
        XDGToplevel::take_from_proxy(wl_proxy::fresh(new_id, version))
    }

    /// Declares the window-content rectangle, marshalling
    /// `set_window_geometry` (opcode 3) with the rectangle's position
    /// and size.
    pub fn set_window_geometry(&mut self, x: i32, y: i32, width: i32, height: i32)
        requires
            old(self).wf(),
            old(self).0.live(),
        ensures
            final(self).wf(),
            final(self).0.live(),
            sent_one(
                old(self).0,
                final(self).0,
                3,
                seq![
                    WlArgValue::Int(x),
                    WlArgValue::Int(y),
                    WlArgValue::Int(width),
                    WlArgValue::Int(height),
                ],
                false,
            ),
    {
        self.0.send(
            3,
            vec![
                WlArgValue::Int(x),
                WlArgValue::Int(y),
                WlArgValue::Int(width),
                WlArgValue::Int(height),
            ],
            false,
        );
        proof {
            lemma_sent_one_log(
                old(self).0,
                self.0,
                3,
                seq![
                    WlArgValue::Int(x),
                    WlArgValue::Int(y),
                    WlArgValue::Int(width),
                    WlArgValue::Int(height),
                ],
                false,
                |op: int| Self::method_args(op),
            );
        }
    }

    /// Accepts a `configure` event, marshalling `ack_configure`
    /// (opcode 4) with the configure's serial.
    pub fn ack_configure(&mut self, serial: u32)
        requires
            old(self).wf(),
            old(self).0.live(),
        ensures
            final(self).wf(),
            final(self).0.live(),
            sent_one(old(self).0, final(self).0, 4, seq![WlArgValue::Uint(serial)], false),
    {
        self.0.send(4, vec![WlArgValue::Uint(serial)], false);
        proof {
            lemma_sent_one_log(
                old(self).0,
                self.0,
                4,
                seq![WlArgValue::Uint(serial)],
                false,
                |op: int| Self::method_args(op),
            );
        }
    }
}

} // verus!
