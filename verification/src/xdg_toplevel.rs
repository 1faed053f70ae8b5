//! The xdg_toplevel role: a top-level desktop window.

use vstd::prelude::*;

use crate::output::WlOutput;
use crate::seat::WlSeat;
use crate::sys::{
    lemma_sent_one_log, sent_one, wl_array, wl_interface, wl_message, wl_proxy,
};
use crate::wire::{log_wf, sig_args, sig_args_from, WlArgKind, WlArgSpec, WlArgValue};
use crate::{Interface, OwnableInterface};

verus! {

/// The protocol error codes xdg_toplevel can raise.
#[derive(Clone, Copy, PartialEq, Eq, Structural, Debug)]
pub enum XDGToplevelError {
    /// provided value is not a valid variant of the resize_edge enum
    InvalidResizeEdge,
    /// invalid parent toplevel
    InvalidParent,
    /// client provided an invalid min or max size
    InvalidSize,
}

impl XDGToplevelError {
    /// The numeric code of this error on the wire.
    pub open spec fn spec_value(self) -> u32 {
        match self {
            XDGToplevelError::InvalidResizeEdge => 0,
            XDGToplevelError::InvalidParent => 1,
            XDGToplevelError::InvalidSize => 2,
        }
    }

    /// The error named by a numeric code, `None` for an unknown code.
    pub open spec fn spec_from(v: u32) -> Option<XDGToplevelError> {
        if v == 0 {
            Option::Some(XDGToplevelError::InvalidResizeEdge)
        } else if v == 1 {
            Option::Some(XDGToplevelError::InvalidParent)
        } else if v == 2 {
            Option::Some(XDGToplevelError::InvalidSize)
        } else {
            Option::None
        }
    }

    /// The numeric code of this error on the wire.
    pub fn protocol_value(self) -> (r: u32)
        ensures
            r == self.spec_value(),
            Self::spec_from(r) == Some(self),
    {
        match self {
            XDGToplevelError::InvalidResizeEdge => 0,
            XDGToplevelError::InvalidParent => 1,
            XDGToplevelError::InvalidSize => 2,
        }
    }

    /// The error named by a numeric code, `None` if and only if the code
    /// is unknown.
    pub fn from_protocol(v: u32) -> (r: Option<XDGToplevelError>)
        ensures
            r == Self::spec_from(v),
            r matches Some(e) ==> e.spec_value() == v,
            r is None <==> v > 2,
    {
        if v == 0 {
            Some(XDGToplevelError::InvalidResizeEdge)
        } else if v == 1 {
            Some(XDGToplevelError::InvalidParent)
        } else if v == 2 {
            Some(XDGToplevelError::InvalidSize)
        } else {
            None
        }
    }
}

/// The window edge or corner an interactive resize is dragged from.
#[derive(Clone, Copy, PartialEq, Eq, Structural, Debug)]
pub enum XDGToplevelResizeEdge {
    NoEdge,
    Top,
    Bottom,
    Left,
    TopLeft,
    BottomLeft,
    Right,
    TopRight,
    BottomRight,
}

impl XDGToplevelResizeEdge {
    /// The numeric value of this edge on the wire: a bitwise pairing of
    /// top (1), bottom (2), left (4) and right (8).
    pub open spec fn spec_value(self) -> u32 {
        match self {
            XDGToplevelResizeEdge::NoEdge => 0,
            XDGToplevelResizeEdge::Top => 1,
            XDGToplevelResizeEdge::Bottom => 2,
            XDGToplevelResizeEdge::Left => 4,
            XDGToplevelResizeEdge::TopLeft => 5,
            XDGToplevelResizeEdge::BottomLeft => 6,
            XDGToplevelResizeEdge::Right => 8,
            XDGToplevelResizeEdge::TopRight => 9,
            XDGToplevelResizeEdge::BottomRight => 10,
        }
    }

    /// The edge named by a numeric value, `None` for an unknown value.
    pub open spec fn spec_from(v: u32) -> Option<XDGToplevelResizeEdge> {
        if v == 0 {
            Option::Some(XDGToplevelResizeEdge::NoEdge)
        } else if v == 1 {
            Option::Some(XDGToplevelResizeEdge::Top)
        } else if v == 2 {
            Option::Some(XDGToplevelResizeEdge::Bottom)
        } else if v == 4 {
            Option::Some(XDGToplevelResizeEdge::Left)
        } else if v == 5 {
            Option::Some(XDGToplevelResizeEdge::TopLeft)
        } else if v == 6 {
            Option::Some(XDGToplevelResizeEdge::BottomLeft)
        } else if v == 8 {
            Option::Some(XDGToplevelResizeEdge::Right)
        } else if v == 9 {
            Option::Some(XDGToplevelResizeEdge::TopRight)
        } else if v == 10 {
            Option::Some(XDGToplevelResizeEdge::BottomRight)
        } else {
            Option::None
        }
    }

    /// The numeric value of this edge on the wire.
    pub fn protocol_value(self) -> (r: u32)
        ensures
            r == self.spec_value(),
            Self::spec_from(r) == Some(self),
    {
        match self {
            XDGToplevelResizeEdge::NoEdge => 0,
            XDGToplevelResizeEdge::Top => 1,
            XDGToplevelResizeEdge::Bottom => 2,
            XDGToplevelResizeEdge::Left => 4,
            XDGToplevelResizeEdge::TopLeft => 5,
            XDGToplevelResizeEdge::BottomLeft => 6,
            XDGToplevelResizeEdge::Right => 8,
            XDGToplevelResizeEdge::TopRight => 9,
            XDGToplevelResizeEdge::BottomRight => 10,
        }
    }

    /// The edge named by a numeric value, `None` if and only if the
    /// value is unknown.
    pub fn from_protocol(v: u32) -> (r: Option<XDGToplevelResizeEdge>)
        ensures
            r == Self::spec_from(v),
            r matches Some(e) ==> e.spec_value() == v,
            r is None <==> (v == 3 || v == 7 || v > 10),
    {
        if v == 0 {
            Some(XDGToplevelResizeEdge::NoEdge)
        } else if v == 1 {
            Some(XDGToplevelResizeEdge::Top)
        } else if v == 2 {
            Some(XDGToplevelResizeEdge::Bottom)
        } else if v == 4 {
            Some(XDGToplevelResizeEdge::Left)
        } else if v == 5 {
            Some(XDGToplevelResizeEdge::TopLeft)
        } else if v == 6 {
            Some(XDGToplevelResizeEdge::BottomLeft)
        } else if v == 8 {
            Some(XDGToplevelResizeEdge::Right)
        } else if v == 9 {
            Some(XDGToplevelResizeEdge::TopRight)
        } else if v == 10 {
            Some(XDGToplevelResizeEdge::BottomRight)
        } else {
            None
        }
    }
}

/// One state a toplevel can be in, as listed in a `configure` event's
/// array.
#[derive(Clone, Copy, PartialEq, Eq, Structural, Debug)]
pub enum XDGToplevelState {
    Maximized,
    Fullscreen,
    Resizing,
    Activated,
    /// since v2
    TiledLeft,
    /// since v2
    TiledRight,
    /// since v2
    TiledTop,
    /// since v2
    TiledBottom,
    /// since v6
    Suspeneded,
}

impl XDGToplevelState {
    /// The numeric value of this state on the wire.
    pub open spec fn spec_value(self) -> u32 {
        match self {
            XDGToplevelState::Maximized => 1,
            XDGToplevelState::Fullscreen => 2,
            XDGToplevelState::Resizing => 3,
            XDGToplevelState::Activated => 4,
            XDGToplevelState::TiledLeft => 5,
            XDGToplevelState::TiledRight => 6,
            XDGToplevelState::TiledTop => 7,
            XDGToplevelState::TiledBottom => 8,
            XDGToplevelState::Suspeneded => 9,
        }
    }

    /// The state named by a numeric value, `None` for an unknown value.
    pub open spec fn spec_from(v: u32) -> Option<XDGToplevelState> {
        if v == 1 {
            Option::Some(XDGToplevelState::Maximized)
        } else if v == 2 {
            Option::Some(XDGToplevelState::Fullscreen)
        } else if v == 3 {
            Option::Some(XDGToplevelState::Resizing)
        } else if v == 4 {
            Option::Some(XDGToplevelState::Activated)
        } else if v == 5 {
            Option::Some(XDGToplevelState::TiledLeft)
        } else if v == 6 {
            Option::Some(XDGToplevelState::TiledRight)
        } else if v == 7 {
            Option::Some(XDGToplevelState::TiledTop)
        } else if v == 8 {
            Option::Some(XDGToplevelState::TiledBottom)
        } else if v == 9 {
            Option::Some(XDGToplevelState::Suspeneded)
        } else {
            Option::None
        }
    }

    /// The numeric value of this state on the wire.
    pub fn protocol_value(self) -> (r: u32)
        ensures
            r == self.spec_value(),
            Self::spec_from(r) == Some(self),
    {
        match self {
            XDGToplevelState::Maximized => 1,
            XDGToplevelState::Fullscreen => 2,
            XDGToplevelState::Resizing => 3,
            XDGToplevelState::Activated => 4,
            XDGToplevelState::TiledLeft => 5,
            XDGToplevelState::TiledRight => 6,
            XDGToplevelState::TiledTop => 7,
            XDGToplevelState::TiledBottom => 8,
            XDGToplevelState::Suspeneded => 9,
        }
    }

    /// The state named by a numeric value, `None` if and only if the
    /// value is unknown.
    pub fn from_protocol(v: u32) -> (r: Option<XDGToplevelState>)
        ensures
            r == Self::spec_from(v),
            r matches Some(s) ==> s.spec_value() == v,
            r is None <==> (v == 0 || v > 9),
    {
        if v == 1 {
            Some(XDGToplevelState::Maximized)
        } else if v == 2 {
            Some(XDGToplevelState::Fullscreen)
        } else if v == 3 {
            Some(XDGToplevelState::Resizing)
        } else if v == 4 {
            Some(XDGToplevelState::Activated)
        } else if v == 5 {
            Some(XDGToplevelState::TiledLeft)
        } else if v == 6 {
            Some(XDGToplevelState::TiledRight)
        } else if v == 7 {
            Some(XDGToplevelState::TiledTop)
        } else if v == 8 {
            Some(XDGToplevelState::TiledBottom)
        } else if v == 9 {
            Some(XDGToplevelState::Suspeneded)
        } else {
            None
        }
    }

    /// Reads a `configure` event's state array: one entry per value,
    /// unknown values kept as `None`.
    pub fn from_array(arr: &wl_array) -> (r: Vec<Option<XDGToplevelState>>)
        ensures
            r@ == arr.data@.map_values(|v: u32| XDGToplevelState::spec_from(v)),
    {
        let mut r: Vec<Option<XDGToplevelState>> = Vec::new();
        let mut i: usize = 0;
        while i < arr.data.len()
            invariant
                i <= arr.data@.len(),
                r@ =~= arr.data@.take(i as int).map_values(
                    |v: u32| XDGToplevelState::spec_from(v),
                ),
            decreases arr.data@.len() - i,
        {
            r.push(Self::from_protocol(arr.data[i]));
            i = i + 1;
            proof {
                assert(arr.data@.take(i as int) =~= arr.data@.take(i - 1).push(
                    arr.data@[i - 1],
                ));
            }
        }
        proof {
            assert(arr.data@.take(i as int) =~= arr.data@);
        }
        r
    }
}

/// One optional window-management feature a `wm_capabilities` event can
/// advertise.
#[derive(Clone, Copy, PartialEq, Eq, Structural, Debug)]
pub enum XDGToplevelWMCapabilities {
    /// show_window_menu is available
    WindowMenu,
    /// set_maximized and unset_maximized are available
    Maximize,
    /// set_fullscreen and unset_fullscreen are available
    Fullscreen,
    /// set_minimized is available
    Minimize,
}

impl XDGToplevelWMCapabilities {
    /// The numeric value of this capability on the wire.
    pub open spec fn spec_value(self) -> u32 {
        match self {
            XDGToplevelWMCapabilities::WindowMenu => 1,
            XDGToplevelWMCapabilities::Maximize => 2,
            XDGToplevelWMCapabilities::Fullscreen => 3,
            XDGToplevelWMCapabilities::Minimize => 4,
        }
    }

    /// The capability named by a numeric value, `None` for an unknown
    /// value.
    pub open spec fn spec_from(v: u32) -> Option<XDGToplevelWMCapabilities> {
        if v == 1 {
            Option::Some(XDGToplevelWMCapabilities::WindowMenu)
        } else if v == 2 {
            Option::Some(XDGToplevelWMCapabilities::Maximize)
        } else if v == 3 {
            Option::Some(XDGToplevelWMCapabilities::Fullscreen)
        } else if v == 4 {
            Option::Some(XDGToplevelWMCapabilities::Minimize)
        } else {
            Option::None
        }
    }

    /// The numeric value of this capability on the wire.
    pub fn protocol_value(self) -> (r: u32)
        ensures
            r == self.spec_value(),
            Self::spec_from(r) == Some(self),
    {
        match self {
            XDGToplevelWMCapabilities::WindowMenu => 1,
            XDGToplevelWMCapabilities::Maximize => 2,
            XDGToplevelWMCapabilities::Fullscreen => 3,
            XDGToplevelWMCapabilities::Minimize => 4,
        }
    }

    /// The capability named by a numeric value, `None` if and only if
    /// the value is unknown.
    pub fn from_protocol(v: u32) -> (r: Option<XDGToplevelWMCapabilities>)
        ensures
            r == Self::spec_from(v),
            r matches Some(c) ==> c.spec_value() == v,
            r is None <==> (v == 0 || v > 4),
    {
        if v == 1 {
            Some(XDGToplevelWMCapabilities::WindowMenu)
        } else if v == 2 {
            Some(XDGToplevelWMCapabilities::Maximize)
        } else if v == 3 {
            Some(XDGToplevelWMCapabilities::Fullscreen)
        } else if v == 4 {
            Some(XDGToplevelWMCapabilities::Minimize)
        } else {
            None
        }
    }

    /// Reads a `wm_capabilities` event's array: one entry per value,
    /// unknown values kept as `None`.
    pub fn from_array(arr: &wl_array) -> (r: Vec<Option<XDGToplevelWMCapabilities>>)
        ensures
            r@ == arr.data@.map_values(|v: u32| XDGToplevelWMCapabilities::spec_from(v)),
    {
        let mut r: Vec<Option<XDGToplevelWMCapabilities>> = Vec::new();
        let mut i: usize = 0;
        while i < arr.data.len()
            invariant
                i <= arr.data@.len(),
                r@ =~= arr.data@.take(i as int).map_values(
                    |v: u32| XDGToplevelWMCapabilities::spec_from(v),
                ),
            decreases arr.data@.len() - i,
        {
            r.push(Self::from_protocol(arr.data[i]));
            i = i + 1;
            proof {
                assert(arr.data@.take(i as int) =~= arr.data@.take(i - 1).push(
                    arr.data@[i - 1],
                ));
            }
        }
        proof {
            assert(arr.data@.take(i as int) =~= arr.data@);
        }
        r
    }
}

/// What a client does with xdg_toplevel's events.
pub trait XDGToplevelListener {
    fn configure(
        &mut self,
        sender: &mut XDGToplevel,
        width: i32,
        height: i32,
        states: &mut wl_array,
    );

    fn close(&mut self, sender: &mut XDGToplevel);

    fn configure_bounds(&mut self, sender: &mut XDGToplevel, width: i32, height: i32);

    fn wm_capabilities(&mut self, sender: &mut XDGToplevel, capabilities: &mut wl_array);
}

/// An xdg_toplevel object.
pub struct XDGToplevel(pub wl_proxy);

/// An xdg_toplevel object together with its ownership.
pub type OwnedXDGToplevel = XDGToplevel;

impl Interface for XDGToplevel {
    open spec fn interface_name() -> Seq<char> {
        "xdg_toplevel"@
    }

    /// destroy (0); set_parent (1); set_title (2); set_app_id (3);
    /// show_window_menu (4); move (5); resize (6); set_max_size (7);
    /// set_min_size (8); set_maximized (9); unset_maximized (10);
    /// set_fullscreen (11); unset_fullscreen (12); set_minimized (13).
    open spec fn method_args(op: int) -> Option<Seq<WlArgSpec>> {
        if op == 0 || op == 9 || op == 10 || op == 12 || op == 13 {
            Option::Some(seq![])
        } else if op == 1 || op == 11 {
            Option::Some(seq![WlArgSpec { kind: WlArgKind::Object, nullable: true }])
        } else if op == 2 || op == 3 {
            Option::Some(seq![WlArgSpec { kind: WlArgKind::Str, nullable: false }])
        } else if op == 4 {
            Option::Some(
                seq![
                    WlArgSpec { kind: WlArgKind::Object, nullable: false },
                    WlArgSpec { kind: WlArgKind::Uint, nullable: false },
                    WlArgSpec { kind: WlArgKind::Int, nullable: false },
                    WlArgSpec { kind: WlArgKind::Int, nullable: false },
                ],
            )
        } else if op == 5 {
            Option::Some(
                seq![
                    WlArgSpec { kind: WlArgKind::Object, nullable: false },
                    WlArgSpec { kind: WlArgKind::Uint, nullable: false },
                ],
            )
        } else if op == 6 {
            Option::Some(
                seq![
                    WlArgSpec { kind: WlArgKind::Object, nullable: false },
                    WlArgSpec { kind: WlArgKind::Uint, nullable: false },
                    WlArgSpec { kind: WlArgKind::Uint, nullable: false },
                ],
            )
        } else if op == 7 || op == 8 {
            Option::Some(
                seq![
                    WlArgSpec { kind: WlArgKind::Int, nullable: false },
                    WlArgSpec { kind: WlArgKind::Int, nullable: false },
                ],
            )
        } else {
            Option::None
        }
    }

    fn name() -> (r: String) {
        "xdg_toplevel".to_owned()
    }
}

impl OwnableInterface for XDGToplevel {
    type OwnedType = OwnedXDGToplevel;

    open spec fn owned_proxy(owned: &OwnedXDGToplevel) -> wl_proxy {
        owned.0
    }

    fn take_from_proxy(p: wl_proxy) -> (r: OwnedXDGToplevel) {
        XDGToplevel(p)
    }
}

impl XDGToplevel {
    /// Every request sent on the object is well formed against its
    /// method table.
    pub open spec fn wf(self) -> bool {
        log_wf(self.0.sent@, |op: int| Self::method_args(op))
    }

    /// The interface description this library speaks: version 6 of
    /// xdg_toplevel. Each method's declared signature parses to the
    /// arguments `method_args` gives for its opcode.
    pub fn interface() -> (r: wl_interface)
        ensures
            r.wf(),
            r@.name == "xdg_toplevel"@,
            r@.version == 6,
            r@.methods.len() == 14,
            r@.methods[0].name == "destroy"@,
            r@.methods[1].name == "set_parent"@,
            r@.methods[2].name == "set_title"@,
            r@.methods[3].name == "set_app_id"@,
            r@.methods[4].name == "show_window_menu"@,
            r@.methods[5].name == "move"@,
            r@.methods[6].name == "resize"@,
            r@.methods[7].name == "set_max_size"@,
            r@.methods[8].name == "set_min_size"@,
            r@.methods[9].name == "set_maximized"@,
            r@.methods[10].name == "unset_maximized"@,
            r@.methods[11].name == "set_fullscreen"@,
            r@.methods[12].name == "unset_fullscreen"@,
            r@.methods[13].name == "set_minimized"@,
            r@.methods[1].types =~= seq![Option::Some("xdg_toplevel"@)],
            r@.methods[4].types =~= seq![
                Option::Some("wl_seat"@),
                Option::None,
                Option::None,
                Option::None,
            ],
            r@.methods[11].types =~= seq![Option::Some("wl_output"@)],
            forall|op: int|
                0 <= op < 14 ==> Self::method_args(op) == Option::Some(
                    #[trigger] sig_args(r@.methods[op].signature),
                ),
            r@.events.len() == 4,
            r@.events[0].name == "configure"@,
            r@.events[1].name == "close"@,
            r@.events[2].name == "configure_bounds"@,
            r@.events[3].name == "wm_capabilities"@,
            sig_args(r@.events[0].signature) =~= seq![
                WlArgSpec { kind: WlArgKind::Int, nullable: false },
                WlArgSpec { kind: WlArgKind::Int, nullable: false },
                WlArgSpec { kind: WlArgKind::Array, nullable: false },
            ],
            sig_args(r@.events[1].signature) =~= Seq::<WlArgSpec>::empty(),
            sig_args(r@.events[2].signature) =~= seq![
                WlArgSpec { kind: WlArgKind::Int, nullable: false },
                WlArgSpec { kind: WlArgKind::Int, nullable: false },
            ],
            sig_args(r@.events[3].signature) =~= seq![
                WlArgSpec { kind: WlArgKind::Array, nullable: false },
            ],
    {
        let mut methods: Vec<wl_message> = Vec::new();
        methods.push(wl_message::new("destroy", "", Vec::new()));
        methods.push(wl_message::new("set_parent", "?o", vec![Some("xdg_toplevel".to_owned())]));
        methods.push(wl_message::new("set_title", "s", vec![None]));
        methods.push(wl_message::new("set_app_id", "s", vec![None]));
        methods.push(
            wl_message::new(
                "show_window_menu",
                "ouii",
                vec![Some("wl_seat".to_owned()), None, None, None],
            ),
        );
        methods.push(wl_message::new("move", "ou", vec![Some("wl_seat".to_owned()), None]));
        methods.push(
            wl_message::new("resize", "ouu", vec![Some("wl_seat".to_owned()), None, None]),
        );
        methods.push(wl_message::new("set_max_size", "ii", vec![None, None]));
        methods.push(wl_message::new("set_min_size", "ii", vec![None, None]));
        methods.push(wl_message::new("set_maximized", "", Vec::new()));
        methods.push(wl_message::new("unset_maximized", "", Vec::new()));
        methods.push(
            wl_message::new("set_fullscreen", "?o", vec![Some("wl_output".to_owned())]),
        );
        methods.push(wl_message::new("unset_fullscreen", "", Vec::new()));
        methods.push(wl_message::new("set_minimized", "", Vec::new()));
        let mut events: Vec<wl_message> = Vec::new();
        events.push(wl_message::new("configure", "iia", vec![None, None, None]));
        events.push(wl_message::new("close", "", Vec::new()));
        events.push(wl_message::new("configure_bounds", "4ii", vec![None, None]));
        events.push(wl_message::new("wm_capabilities", "5a", vec![None]));
        let r = wl_interface::new("xdg_toplevel", 6, methods, events);
        proof {
            reveal_strlit("");
            reveal_strlit("?o");
            reveal_strlit("s");
            reveal_strlit("ouii");
            reveal_strlit("ou");
            reveal_strlit("ouu");
            reveal_strlit("ii");
            reveal_strlit("iia");
            reveal_strlit("4ii");
            reveal_strlit("5a");
            reveal_with_fuel(sig_args_from, 6);
            assert(sig_args(""@) =~= Seq::<WlArgSpec>::empty());
            assert(sig_args("?o"@) =~= seq![
                WlArgSpec { kind: WlArgKind::Object, nullable: true },
            ]);
            assert(sig_args("s"@) =~= seq![WlArgSpec { kind: WlArgKind::Str, nullable: false }]);
            assert(sig_args("ouii"@) =~= seq![
                WlArgSpec { kind: WlArgKind::Object, nullable: false },
                WlArgSpec { kind: WlArgKind::Uint, nullable: false },
                WlArgSpec { kind: WlArgKind::Int, nullable: false },
                WlArgSpec { kind: WlArgKind::Int, nullable: false },
            ]);
            assert(sig_args("ou"@) =~= seq![
                WlArgSpec { kind: WlArgKind::Object, nullable: false },
                WlArgSpec { kind: WlArgKind::Uint, nullable: false },
            ]);
            assert(sig_args("ouu"@) =~= seq![
                WlArgSpec { kind: WlArgKind::Object, nullable: false },
                WlArgSpec { kind: WlArgKind::Uint, nullable: false },
                WlArgSpec { kind: WlArgKind::Uint, nullable: false },
            ]);
            assert(sig_args("ii"@) =~= seq![
                WlArgSpec { kind: WlArgKind::Int, nullable: false },
                WlArgSpec { kind: WlArgKind::Int, nullable: false },
            ]);
            assert(sig_args("iia"@) =~= seq![
                WlArgSpec { kind: WlArgKind::Int, nullable: false },
                WlArgSpec { kind: WlArgKind::Int, nullable: false },
                WlArgSpec { kind: WlArgKind::Array, nullable: false },
            ]);
            assert(sig_args("4ii"@) =~= seq![
                WlArgSpec { kind: WlArgKind::Int, nullable: false },
                WlArgSpec { kind: WlArgKind::Int, nullable: false },
            ]);
            assert(sig_args("5a"@) =~= seq![
                WlArgSpec { kind: WlArgKind::Array, nullable: false },
            ]);
        }
        r
    }

    /// Attaches a listener; fails if and only if one is already attached.
    pub fn add_listener<L: XDGToplevelListener>(&mut self, _listener: &mut L) -> (r: Result<
        (),
        (),
    >)
        ensures
            old(self).0.listener ==> r is Err && *final(self) == *old(self),
            !old(self).0.listener ==> r is Ok && final(self).0 == (wl_proxy {
                listener: true,
                ..old(self).0
            }),
    {
        self.0.attach_listener()
    }

    /// Destroys the object, marshalling `destroy` (opcode 0); nothing
    /// more can be sent on it afterwards.
    pub fn destroy(&mut self)
        requires
            old(self).wf(),
            old(self).0.live(),
        ensures
            final(self).wf(),
            !final(self).0.live(),
            sent_one(old(self).0, final(self).0, 0, seq![], true),
    {
        self.0.send(0, Vec::new(), true);
        proof {
            lemma_sent_one_log(
                old(self).0,
                self.0,
                0,
                seq![],
                true,
                |op: int| Self::method_args(op),
            );
            assert(self.0.sent@[self.0.sent@.len() - 1].destroys);
        }
    }

    /// Names the window this one is transient for, or none, marshalling
    /// `set_parent` (opcode 1).
    pub fn set_parent(&mut self, parent: Option<&XDGToplevel>)
        requires
            old(self).wf(),
            old(self).0.live(),
        ensures
            final(self).wf(),
            final(self).0.live(),
            sent_one(
                old(self).0,
                final(self).0,
                1,
                seq![
                    WlArgValue::Object(
                        match parent {
                            Option::Some(p) => Option::Some(p.0.id),
                            Option::None => Option::None,
                        },
                    ),
                ],
                false,
            ),
    {
        let parent_id = match parent {
            Some(p) => Some(p.0.id),
            None => None,
        };
        self.0.send(1, vec![WlArgValue::Object(parent_id)], false);
        proof {
            lemma_sent_one_log(
                old(self).0,
                self.0,
                1,
                seq![WlArgValue::Object(parent_id)],
                false,
                |op: int| Self::method_args(op),
            );
        }
    }

    /// Sets the window's title, marshalling `set_title` (opcode 2).
    pub fn set_title(&mut self, title: String)
        requires
            old(self).wf(),
            old(self).0.live(),
        ensures
            final(self).wf(),
            final(self).0.live(),
            sent_one(old(self).0, final(self).0, 2, seq![WlArgValue::Str(title)], false),
    {
        self.0.send(2, vec![WlArgValue::Str(title)], false);
        proof {
            lemma_sent_one_log(
                old(self).0,
                self.0,
                2,
                seq![WlArgValue::Str(title)],
                false,
                |op: int| Self::method_args(op),
            );
        }
    }

    /// Sets the window's application id, marshalling `set_app_id`
    /// (opcode 3).
    pub fn set_app_id(&mut self, app_id: String)
        requires
            old(self).wf(),
            old(self).0.live(),
        ensures
            final(self).wf(),
            final(self).0.live(),
            sent_one(old(self).0, final(self).0, 3, seq![WlArgValue::Str(app_id)], false),
    {
        self.0.send(3, vec![WlArgValue::Str(app_id)], false);
        proof {
            lemma_sent_one_log(
                old(self).0,
                self.0,
                3,
                seq![WlArgValue::Str(app_id)],
                false,
                |op: int| Self::method_args(op),
            );
        }
    }

    /// Asks the window manager to show its menu for this window,
    /// marshalling `show_window_menu` (opcode 4) with the seat and
    /// serial of the triggering input event and the menu's position.
    pub fn show_window_menu(&mut self, seat: &WlSeat, serial: u32, x: i32, y: i32)
        requires
            old(self).wf(),
            old(self).0.live(),
        ensures
            final(self).wf(),
            final(self).0.live(),
            sent_one(
                old(self).0,
                final(self).0,
                4,
                seq![
                    WlArgValue::Object(Option::Some(seat.0.id)),
                    WlArgValue::Uint(serial),
                    WlArgValue::Int(x),
                    WlArgValue::Int(y),
                ],
                false,
            ),
    {
        self.0.send(
            4,
            vec![
                WlArgValue::Object(Some(seat.0.id)),
                WlArgValue::Uint(serial),
                WlArgValue::Int(x),
                WlArgValue::Int(y),
            ],
            false,
        );
        proof {
            lemma_sent_one_log(
                old(self).0,
                self.0,
                4,
                seq![
                    WlArgValue::Object(Option::Some(seat.0.id)),
                    WlArgValue::Uint(serial),
                    WlArgValue::Int(x),
                    WlArgValue::Int(y),
                ],
                false,
                |op: int| Self::method_args(op),
            );
        }
    }

    /// Starts an interactive move, marshalling `move` (opcode 5) with
    /// the seat and serial of the triggering input event.
    pub fn start_move(&mut self, seat: &WlSeat, serial: u32)
        requires
            old(self).wf(),
            old(self).0.live(),
        ensures
            final(self).wf(),
            final(self).0.live(),
            sent_one(
                old(self).0,
                final(self).0,
                5,
                seq![WlArgValue::Object(Option::Some(seat.0.id)), WlArgValue::Uint(serial)],
                false,
            ),
    {
        self.0.send(
            5,
            vec![WlArgValue::Object(Some(seat.0.id)), WlArgValue::Uint(serial)],
            false,
        );
        proof {
            lemma_sent_one_log(
                old(self).0,
                self.0,
                5,
                seq![WlArgValue::Object(Option::Some(seat.0.id)), WlArgValue::Uint(serial)],
                false,
                |op: int| Self::method_args(op),
            );
        }
    }

    /// Starts an interactive resize from the given edge, marshalling
    /// `resize` (opcode 6) with the seat and serial of the triggering
    /// input event and the edge's numeric value.
    pub fn resize(&mut self, seat: &WlSeat, serial: u32, edges: XDGToplevelResizeEdge)
        requires
            old(self).wf(),
            old(self).0.live(),
        ensures
            final(self).wf(),
            final(self).0.live(),
            sent_one(
                old(self).0,
                final(self).0,
                6,
                seq![
                    WlArgValue::Object(Option::Some(seat.0.id)),
                    WlArgValue::Uint(serial),
                    WlArgValue::Uint(edges.spec_value()),
                ],
                false,
            ),
    {
        let edge_value = edges.protocol_value();
        self.0.send(
            6,
            vec![
                WlArgValue::Object(Some(seat.0.id)),
                WlArgValue::Uint(serial),
                WlArgValue::Uint(edge_value),
            ],
            false,
        );
        proof {
            lemma_sent_one_log(
                old(self).0,
                self.0,
                6,
                seq![
                    WlArgValue::Object(Option::Some(seat.0.id)),
                    WlArgValue::Uint(serial),
                    WlArgValue::Uint(edges.spec_value()),
                ],
                false,
                |op: int| Self::method_args(op),
            );
        }
    }

    /// Sets the window's largest acceptable size, marshalling
    /// `set_max_size` (opcode 7); zero means unbounded.
    pub fn set_max_size(&mut self, width: i32, height: i32)
        requires
            old(self).wf(),
            old(self).0.live(),
        ensures
            final(self).wf(),
            final(self).0.live(),
            sent_one(
                old(self).0,
                final(self).0,
                7,
                seq![WlArgValue::Int(width), WlArgValue::Int(height)],
                false,
            ),
    {
        self.0.send(7, vec![WlArgValue::Int(width), WlArgValue::Int(height)], false);
        proof {
            lemma_sent_one_log(
                old(self).0,
                self.0,
                7,
                seq![WlArgValue::Int(width), WlArgValue::Int(height)],
                false,
                |op: int| Self::method_args(op),
            );
        }
    }

    /// Sets the window's smallest acceptable size, marshalling
    /// `set_min_size` (opcode 8); zero means unbounded.
    pub fn set_min_size(&mut self, width: i32, height: i32)
        requires
            old(self).wf(),
            old(self).0.live(),
        ensures
            final(self).wf(),
            final(self).0.live(),
            sent_one(
                old(self).0,
                final(self).0,
                8,
                seq![WlArgValue::Int(width), WlArgValue::Int(height)],
                false,
            ),
    {
        self.0.send(8, vec![WlArgValue::Int(width), WlArgValue::Int(height)], false);
        proof {
            lemma_sent_one_log(
                old(self).0,
                self.0,
                8,
                seq![WlArgValue::Int(width), WlArgValue::Int(height)],
                false,
                |op: int| Self::method_args(op),
            );
        }
    }

    /// Asks to be maximized, marshalling `set_maximized` (opcode 9).
    pub fn set_maximized(&mut self)
        requires
            old(self).wf(),
            old(self).0.live(),
        ensures
            final(self).wf(),
            final(self).0.live(),
            sent_one(old(self).0, final(self).0, 9, seq![], false),
    {
        self.0.send(9, Vec::new(), false);
        proof {
            lemma_sent_one_log(
                old(self).0,
                self.0,
                9,
                seq![],
                false,
                |op: int| Self::method_args(op),
            );
        }
    }

    /// Asks to leave the maximized state, marshalling `unset_maximized`
    /// (opcode 10).
    pub fn unset_maximized(&mut self)
        requires
            old(self).wf(),
            old(self).0.live(),
        ensures
            final(self).wf(),
            final(self).0.live(),
            sent_one(old(self).0, final(self).0, 10, seq![], false),
    {
        self.0.send(10, Vec::new(), false);
        proof {
            lemma_sent_one_log(
                old(self).0,
                self.0,
                10,
                seq![],
                false,
                |op: int| Self::method_args(op),
            );
        }
    }

    /// Asks to be fullscreen, on the given output or wherever the
    /// compositor chooses, marshalling `set_fullscreen` (opcode 11).
    pub fn set_fullscreen(&mut self, output: Option<&WlOutput>)
        requires
            old(self).wf(),
            old(self).0.live(),
        ensures
            final(self).wf(),
            final(self).0.live(),
            sent_one(
                old(self).0,
                final(self).0,
                11,
                seq![
                    WlArgValue::Object(
                        match output {
                            Option::Some(o) => Option::Some(o.0.id),
                            Option::None => Option::None,
                        },
                    ),
                ],
                false,
            ),
    {
        let output_id = match output {
            Some(o) => Some(o.0.id),
            None => None,
        };
        self.0.send(11, vec![WlArgValue::Object(output_id)], false);
        proof {
            lemma_sent_one_log(
                old(self).0,
                self.0,
                11,
                seq![WlArgValue::Object(output_id)],
                false,
                |op: int| Self::method_args(op),
            );
        }
    }

    /// Asks to leave the fullscreen state, marshalling
    /// `unset_fullscreen` (opcode 12).
    pub fn unset_fullscreen(&mut self)
        requires
            old(self).wf(),
            old(self).0.live(),
        ensures
            final(self).wf(),
            final(self).0.live(),
            sent_one(old(self).0, final(self).0, 12, seq![], false),
    {
        self.0.send(12, Vec::new(), false);
        proof {
            lemma_sent_one_log(
                old(self).0,
                self.0,
                12,
                seq![],
                false,
                |op: int| Self::method_args(op),
            );
        }
    }

    /// Asks to be minimized, marshalling `set_minimized` (opcode 13).
    pub fn set_minimized(&mut self)
        requires
            old(self).wf(),
            old(self).0.live(),
        ensures
            final(self).wf(),
            final(self).0.live(),
            sent_one(old(self).0, final(self).0, 13, seq![], false),
    {
        self.0.send(13, Vec::new(), false);
        proof {
            lemma_sent_one_log(
                old(self).0,
                self.0,
                13,
                seq![],
                false,
                |op: int| Self::method_args(op),
            );
        }
    }
}

} // verus!
