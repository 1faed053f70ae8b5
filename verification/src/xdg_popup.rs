//! The xdg_popup role: a short-lived surface placed relative to a
//! parent window.

use vstd::prelude::*;

use crate::sys::{wl_interface, wl_message, wl_proxy};
use crate::wire::{sig_args, sig_args_from, WlArgKind, WlArgSpec};
use crate::Interface;

verus! {

/// The protocol error code xdg_popup can raise.
#[derive(Clone, Copy, PartialEq, Eq, Structural, Debug)]
pub enum XDGPopupError {
    /// tried to grab after being mapped
    InvalidGrab,
}

impl XDGPopupError {
    /// The numeric code of this error on the wire.
    pub open spec fn spec_value(self) -> u32 {
        0
    }

    /// The error named by a numeric code, `None` for an unknown code.
    pub open spec fn spec_from(v: u32) -> Option<XDGPopupError> {
        if v == 0 {
            Option::Some(XDGPopupError::InvalidGrab)
        } else {
            Option::None
        }
    }

    /// The numeric code of this error on the wire.
    pub fn protocol_value(self) -> (r: u32)
        ensures
            r == self.spec_value(),
            Self::spec_from(r) == Some(self),
    {
        0
    }

    /// The error named by a numeric code, `None` if and only if the code
    /// is unknown.
    pub fn from_protocol(v: u32) -> (r: Option<XDGPopupError>)
        ensures
            r == Self::spec_from(v),
            r is None <==> v > 0,
    {
        if v == 0 {
            Some(XDGPopupError::InvalidGrab)
        } else {
            None
        }
    }
}

/// An xdg_popup object.
pub struct XDGPopup(pub wl_proxy);

impl Interface for XDGPopup {
    open spec fn interface_name() -> Seq<char> {
        "xdg_popup"@
    }

    /// destroy (0); grab (1) carries the seat and serial of the
    /// triggering input event; reposition (2) carries a positioner and a
    /// token.
    open spec fn method_args(op: int) -> Option<Seq<WlArgSpec>> {
        if op == 0 {
            Option::Some(seq![])
        } else if op == 1 || op == 2 {
            Option::Some(
                seq![
                    WlArgSpec { kind: WlArgKind::Object, nullable: false },
                    WlArgSpec { kind: WlArgKind::Uint, nullable: false },
                ],
            )
        } else {
            Option::None
        }
    }

    fn name() -> (r: String) {
        "xdg_popup".to_owned()
    }
}

impl XDGPopup {
    /// The interface description this library speaks: version 6 of
    /// xdg_popup. Each method's declared signature parses to the
    /// arguments `method_args` gives for its opcode.
    pub fn interface() -> (r: wl_interface)
        ensures
            r.wf(),
            r@.name == "xdg_popup"@,
            r@.version == 6,
            r@.methods.len() == 3,
            r@.methods[0].name == "destroy"@,
            r@.methods[1].name == "grab"@,
            r@.methods[2].name == "reposition"@,
            r@.methods[1].types =~= seq![Option::Some("wl_seat"@), Option::None],
            r@.methods[2].types =~= seq![Option::Some("xdg_positioner"@), Option::None],
            forall|op: int|
                0 <= op < 3 ==> Self::method_args(op) == Option::Some(
                    #[trigger] sig_args(r@.methods[op].signature),
                ),
            r@.events.len() == 3,
            r@.events[0].name == "configure"@,
            r@.events[1].name == "popup_done"@,
            r@.events[2].name == "repositioned"@,
            sig_args(r@.events[0].signature) =~= seq![
                WlArgSpec { kind: WlArgKind::Int, nullable: false },
                WlArgSpec { kind: WlArgKind::Int, nullable: false },
                WlArgSpec { kind: WlArgKind::Int, nullable: false },
                WlArgSpec { kind: WlArgKind::Int, nullable: false },
            ],
            sig_args(r@.events[1].signature) =~= Seq::<WlArgSpec>::empty(),
            sig_args(r@.events[2].signature) =~= seq![
                WlArgSpec { kind: WlArgKind::Uint, nullable: false },
            ],
    {
        let mut methods: Vec<wl_message> = Vec::new();
        methods.push(wl_message::new("destroy", "", Vec::new()));
        methods.push(wl_message::new("grab", "ou", vec![Some("wl_seat".to_owned()), None]));
        methods.push(
            wl_message::new("reposition", "3ou", vec![Some("xdg_positioner".to_owned()), None]),
        );
        let mut events: Vec<wl_message> = Vec::new();
        events.push(wl_message::new("configure", "iiii", vec![None, None, None, None]));
        events.push(wl_message::new("popup_done", "", Vec::new()));
        events.push(wl_message::new("repositioned", "3u", vec![None]));
        let r = wl_interface::new("xdg_popup", 6, methods, events);
        proof {
            reveal_strlit("");
            reveal_strlit("ou");
            reveal_strlit("3ou");
            reveal_strlit("iiii");
            reveal_strlit("3u");
            reveal_with_fuel(sig_args_from, 6);
            assert(sig_args(""@) =~= Seq::<WlArgSpec>::empty());
            assert(sig_args("ou"@) =~= seq![
                WlArgSpec { kind: WlArgKind::Object, nullable: false },
                WlArgSpec { kind: WlArgKind::Uint, nullable: false },
            ]);
            assert(sig_args("3ou"@) =~= seq![
                WlArgSpec { kind: WlArgKind::Object, nullable: false },
                WlArgSpec { kind: WlArgKind::Uint, nullable: false },
            ]);
            assert(sig_args("iiii"@) =~= seq![
                WlArgSpec { kind: WlArgKind::Int, nullable: false },
                WlArgSpec { kind: WlArgKind::Int, nullable: false },
                WlArgSpec { kind: WlArgKind::Int, nullable: false },
                WlArgSpec { kind: WlArgKind::Int, nullable: false },
            ]);
            assert(sig_args("3u"@) =~= seq![WlArgSpec { kind: WlArgKind::Uint, nullable: false }]);
        }
        r
    }
}

} // verus!
