//! The xdg_wm_base global: the entry point of the xdg-shell extension,
//! which turns plain surfaces into desktop windows.

use vstd::prelude::*;

use crate::surface::WlSurface;
use crate::sys::{lemma_sent_one_log, proxy_fresh, sent_one, wl_interface, wl_message, wl_proxy};
use crate::wire::{log_wf, sig_args, sig_args_from, WlArgKind, WlArgSpec, WlArgValue};
use crate::xdg_surface::{OwnedXDGSurface, XDGSurface};
use crate::{Interface, OwnableInterface};

verus! {

/// The protocol error codes xdg_wm_base can raise.
#[derive(Clone, Copy, PartialEq, Eq, Structural, Debug)]
pub enum XDGWMBaseError {
    /// given wl_surface has another role
    Role,
    /// xdg_wm_base was destroyed before children
    DefunctSurfaces,
    /// the client tried to map or destroy a non-topmost popup
    NotTheTopmostPopup,
    /// the client specified an invalid popup parent surface
    InvalidPopupParent,
    /// the client provided an invalid surface state
    InvalidSurfaceState,
    /// the client provided an invalid positioner
    InvalidPositioner,
    /// the client didn't respond to a ping event in time
    Unresponsive,
}

impl XDGWMBaseError {
    /// The numeric code of this error on the wire.
    pub open spec fn spec_value(self) -> u32 {
        match self {
            XDGWMBaseError::Role => 0,
            XDGWMBaseError::DefunctSurfaces => 1,
            XDGWMBaseError::NotTheTopmostPopup => 2,
            XDGWMBaseError::InvalidPopupParent => 3,
            XDGWMBaseError::InvalidSurfaceState => 4,
            XDGWMBaseError::InvalidPositioner => 5,
            XDGWMBaseError::Unresponsive => 6,
        }
    }

    /// The error named by a numeric code, `None` for an unknown code.
    pub open spec fn spec_from(v: u32) -> Option<XDGWMBaseError> {
        if v == 0 {
            Option::Some(XDGWMBaseError::Role)
        } else if v == 1 {
            Option::Some(XDGWMBaseError::DefunctSurfaces)
        } else if v == 2 {
            Option::Some(XDGWMBaseError::NotTheTopmostPopup)
        } else if v == 3 {
            Option::Some(XDGWMBaseError::InvalidPopupParent)
        } else if v == 4 {
            Option::Some(XDGWMBaseError::InvalidSurfaceState)
        } else if v == 5 {
            Option::Some(XDGWMBaseError::InvalidPositioner)
        } else if v == 6 {
            Option::Some(XDGWMBaseError::Unresponsive)
        } else {
            Option::None
        }
    }

    /// The numeric code of this error on the wire.
    pub fn protocol_value(self) -> (r: u32)
        ensures
            r == self.spec_value(),
            Self::spec_from(r) == Some(self),
    {
        match self {
            XDGWMBaseError::Role => 0,
            XDGWMBaseError::DefunctSurfaces => 1,
            XDGWMBaseError::NotTheTopmostPopup => 2,
            XDGWMBaseError::InvalidPopupParent => 3,
            XDGWMBaseError::InvalidSurfaceState => 4,
            XDGWMBaseError::InvalidPositioner => 5,
            XDGWMBaseError::Unresponsive => 6,
        }
    }

    /// The error named by a numeric code, `None` if and only if the code
    /// is unknown.
    pub fn from_protocol(v: u32) -> (r: Option<XDGWMBaseError>)
        ensures
            r == Self::spec_from(v),
            r matches Some(e) ==> e.spec_value() == v,
            r is None <==> v > 6,
    {
        if v == 0 {
            Some(XDGWMBaseError::Role)
        } else if v == 1 {
            Some(XDGWMBaseError::DefunctSurfaces)
        } else if v == 2 {
            Some(XDGWMBaseError::NotTheTopmostPopup)
        } else if v == 3 {
            Some(XDGWMBaseError::InvalidPopupParent)
        } else if v == 4 {
            Some(XDGWMBaseError::InvalidSurfaceState)
        } else if v == 5 {
            Some(XDGWMBaseError::InvalidPositioner)
        } else if v == 6 {
            Some(XDGWMBaseError::Unresponsive)
        } else {
            None
        }
    }
}

/// What a client does with xdg_wm_base's `ping` event.
pub trait XDGWMBaseListener {
    fn ping(&mut self, sender: &mut XDGWMBase, serial: u32);
}

/// The xdg_wm_base object.
pub struct XDGWMBase(pub wl_proxy);

/// An xdg_wm_base object together with its ownership.
pub type OwnedXDGWMBase = XDGWMBase;

impl Interface for XDGWMBase {
    open spec fn interface_name() -> Seq<char> {
        "xdg_wm_base"@
    }

    /// destroy (0) carries nothing; create_positioner (1) creates one
    /// object; create_xdg_surface (2) creates one object over an
    /// existing surface; pong (3) answers a ping's serial.
    open spec fn method_args(op: int) -> Option<Seq<WlArgSpec>> {
        if op == 0 {
            Option::Some(seq![])
        } else if op == 1 {
            Option::Some(seq![WlArgSpec { kind: WlArgKind::NewId, nullable: false }])
        } else if op == 2 {
            Option::Some(
                seq![
                    WlArgSpec { kind: WlArgKind::NewId, nullable: false },
                    WlArgSpec { kind: WlArgKind::Object, nullable: false },
                ],
            )
        } else if op == 3 {
            Option::Some(seq![WlArgSpec { kind: WlArgKind::Uint, nullable: false }])
        } else {
            Option::None
        }
    }

    fn name() -> (r: String) {
        "xdg_wm_base".to_owned()
    }
}

impl OwnableInterface for XDGWMBase {
    type OwnedType = OwnedXDGWMBase;

    open spec fn owned_proxy(owned: &OwnedXDGWMBase) -> wl_proxy {
        owned.0
    }

    fn take_from_proxy(p: wl_proxy) -> (r: OwnedXDGWMBase) {
        XDGWMBase(p)
    }
}

impl XDGWMBase {
    /// Every request sent on the object is well formed against its
    /// method table.
    pub open spec fn wf(self) -> bool {
        log_wf(self.0.sent@, |op: int| Self::method_args(op))
    }

    /// The interface description this library speaks: version 6 of
    /// xdg_wm_base, with the method table the marshalling contracts are
    /// stated against. Each method's declared signature parses to the
    /// arguments `method_args` gives for its opcode.
    pub fn interface() -> (r: wl_interface)
        ensures
            r.wf(),
            r@.name == "xdg_wm_base"@,
            r@.version == 6,
            r@.methods.len() == 4,
            r@.methods[0].name == "destroy"@,
            r@.methods[1].name == "create_positioner"@,
            r@.methods[2].name == "create_xdg_surface"@,
            r@.methods[3].name == "pong"@,
            r@.methods[1].types =~= seq![Option::Some("xdg_positioner"@)],
            r@.methods[2].types =~= seq![
                Option::Some("xdg_surface"@),
                Option::Some("wl_surface"@),
            ],
            forall|op: int|
                0 <= op < 4 ==> Self::method_args(op) == Option::Some(
                    #[trigger] sig_args(r@.methods[op].signature),
                ),
            r@.events.len() == 1,
            r@.events[0].name == "ping"@,
            sig_args(r@.events[0].signature) =~= seq![
                WlArgSpec { kind: WlArgKind::Uint, nullable: false },
            ],
    {
        let mut methods: Vec<wl_message> = Vec::new();
        methods.push(wl_message::new("destroy", "", Vec::new()));
        methods.push(
            wl_message::new("create_positioner", "n", vec![Some("xdg_positioner".to_owned())]),
        );
        methods.push(
            wl_message::new(
                "create_xdg_surface",
                "no",
                vec![Some("xdg_surface".to_owned()), Some("wl_surface".to_owned())],
            ),
        );
        methods.push(wl_message::new("pong", "u", vec![None]));
        let mut events: Vec<wl_message> = Vec::new();
        events.push(wl_message::new("ping", "u", vec![None]));
        let r = wl_interface::new("xdg_wm_base", 6, methods, events);
        proof {
            reveal_strlit("");
            reveal_strlit("n");
            reveal_strlit("no");
            reveal_strlit("u");
            reveal_with_fuel(sig_args_from, 4);
            assert(sig_args(""@) =~= Seq::<WlArgSpec>::empty());
            assert(sig_args("n"@) =~= seq![WlArgSpec { kind: WlArgKind::NewId, nullable: false }]);
            assert(sig_args("no"@) =~= seq![
                WlArgSpec { kind: WlArgKind::NewId, nullable: false },
                WlArgSpec { kind: WlArgKind::Object, nullable: false },
            ]);
            assert(sig_args("u"@) =~= seq![WlArgSpec { kind: WlArgKind::Uint, nullable: false }]);
        }
        r
    }

    /// Attaches a listener; fails if and only if one is already attached.
    pub fn add_listener<L: XDGWMBaseListener>(&mut self, _listener: &mut L) -> (r: Result<(), ()>)
        ensures
            old(self).0.listener ==> r is Err && *final(self) == *old(self),
            !old(self).0.listener ==> r is Ok && final(self).0 == (wl_proxy {
                listener: true,
                ..old(self).0
            }),
    {
        self.0.attach_listener()
    }

    /// Destroys the object, marshalling `destroy` (opcode 0); nothing
    /// more can be sent on it afterwards.
    pub fn destroy(&mut self)
        requires
            old(self).wf(),
            old(self).0.live(),
        ensures
            final(self).wf(),
            !final(self).0.live(),
            sent_one(old(self).0, final(self).0, 0, seq![], true),
    {
        self.0.send(0, Vec::new(), true);
        proof {
            lemma_sent_one_log(
                old(self).0,
                self.0,
                0,
                seq![],
                true,
                |op: int| Self::method_args(op),
            );
            assert(self.0.sent@[self.0.sent@.len() - 1].destroys);
        }
    }

    /// Turns `surface` into an xdg_surface, marshalling
    /// `create_xdg_surface` (opcode 2) with the id the new object gets
    /// and the surface it stands on.
    pub fn create_xdg_surface(&mut self, surface: &mut WlSurface, new_id: u32) -> (r:
        OwnedXDGSurface)
        requires
            old(self).wf(),
            old(self).0.live(),
        ensures
            final(self).wf(),
            final(self).0.live(),
            sent_one(
                old(self).0,
                final(self).0,
                2,
                seq![
                    WlArgValue::NewId(new_id),
                    WlArgValue::Object(Option::Some(old(surface).0.id)),
                ],
                false,
            ),
            *final(surface) == *old(surface),
            proxy_fresh(r.0, new_id, old(self).0.version),
            r.wf(),
    {
        let version = self.0.version;
        let surface_id = surface.0.id;
        self.0.send(
            2,
            vec![WlArgValue::NewId(new_id), WlArgValue::Object(Some(surface_id))],
            false,
        );
        proof {
            lemma_sent_one_log(
                old(self).0,
                self.0,
                2,
                seq![WlArgValue::NewId(new_id), WlArgValue::Object(Option::Some(surface_id))],
                false,
                |op: int| Self::method_args(op),
            );
        }
        XDGSurface::take_from_proxy(wl_proxy::fresh(new_id, version))
    }

    /// Answers a `ping` event, marshalling `pong` (opcode 3) with the
    /// ping's serial.
    pub fn pong(&mut self, serial: u32)
        requires
            old(self).wf(),
            old(self).0.live(),
        ensures
            final(self).wf(),
            final(self).0.live(),
            sent_one(old(self).0, final(self).0, 3, seq![WlArgValue::Uint(serial)], false),
    {
        self.0.send(3, vec![WlArgValue::Uint(serial)], false);
        proof {
            lemma_sent_one_log(
                old(self).0,
                self.0,
                3,
                seq![WlArgValue::Uint(serial)],
                false,
                |op: int| Self::method_args(op),
            );
        }
    }
}

} // verus!
