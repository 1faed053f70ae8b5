//! The xdg_positioner: the rules by which a popup is placed relative to
//! its parent.

use vstd::prelude::*;

use crate::sys::{wl_interface, wl_message, wl_proxy};
use crate::wire::{sig_args, sig_args_from, WlArgKind, WlArgSpec};
use crate::Interface;

verus! {

/// The protocol error code xdg_positioner can raise.
#[derive(Clone, Copy, PartialEq, Eq, Structural, Debug)]
pub enum XDGPositionerError {
    /// invalid input provided
    InvalidInput,
}

impl XDGPositionerError {
    /// The numeric code of this error on the wire.
    pub open spec fn spec_value(self) -> u32 {
        0
    }

    /// The error named by a numeric code, `None` for an unknown code.
    pub open spec fn spec_from(v: u32) -> Option<XDGPositionerError> {
        if v == 0 {
            Option::Some(XDGPositionerError::InvalidInput)
        } else {
            Option::None
        }
    }

    /// The numeric code of this error on the wire.
    pub fn protocol_value(self) -> (r: u32)
        ensures
            r == self.spec_value(),
            Self::spec_from(r) == Some(self),
    {
        0
    }

    /// The error named by a numeric code, `None` if and only if the code
    /// is unknown.
    pub fn from_protocol(v: u32) -> (r: Option<XDGPositionerError>)
        ensures
            r == Self::spec_from(v),
            r is None <==> v > 0,
    {
        if v == 0 {
            Some(XDGPositionerError::InvalidInput)
        } else {
            None
        }
    }
}

/// The point of the anchor rectangle a popup is anchored to.
#[derive(Clone, Copy, PartialEq, Eq, Structural, Debug)]
pub enum XDGPositionerAnchor {
    NoAnchor,
    Top,
    Bottom,
    Left,
    Right,
    TopLeft,
    BottomLeft,
    TopRight,
    BottomRight,
}

impl XDGPositionerAnchor {
    /// The numeric value of this anchor on the wire.
    pub open spec fn spec_value(self) -> u32 {
        match self {
            XDGPositionerAnchor::NoAnchor => 0,
            XDGPositionerAnchor::Top => 1,
            XDGPositionerAnchor::Bottom => 2,
            XDGPositionerAnchor::Left => 3,
            XDGPositionerAnchor::Right => 4,
            XDGPositionerAnchor::TopLeft => 5,
            XDGPositionerAnchor::BottomLeft => 6,
            XDGPositionerAnchor::TopRight => 7,
            XDGPositionerAnchor::BottomRight => 8,
        }
    }

    /// The anchor named by a numeric value, `None` for an unknown value.
    pub open spec fn spec_from(v: u32) -> Option<XDGPositionerAnchor> {
        if v == 0 {
            Option::Some(XDGPositionerAnchor::NoAnchor)
        } else if v == 1 {
            Option::Some(XDGPositionerAnchor::Top)
        } else if v == 2 {
            Option::Some(XDGPositionerAnchor::Bottom)
        } else if v == 3 {
            Option::Some(XDGPositionerAnchor::Left)
        } else if v == 4 {
            Option::Some(XDGPositionerAnchor::Right)
        } else if v == 5 {
            Option::Some(XDGPositionerAnchor::TopLeft)
        } else if v == 6 {
            Option::Some(XDGPositionerAnchor::BottomLeft)
        } else if v == 7 {
            Option::Some(XDGPositionerAnchor::TopRight)
        } else if v == 8 {
            Option::Some(XDGPositionerAnchor::BottomRight)
        } else {
            Option::None
        }
    }

    /// The numeric value of this anchor on the wire.
    pub fn protocol_value(self) -> (r: u32)
        ensures
            r == self.spec_value(),
            Self::spec_from(r) == Some(self),
    {
        match self {
            XDGPositionerAnchor::NoAnchor => 0,
            XDGPositionerAnchor::Top => 1,
            XDGPositionerAnchor::Bottom => 2,
            XDGPositionerAnchor::Left => 3,
            XDGPositionerAnchor::Right => 4,
            XDGPositionerAnchor::TopLeft => 5,
            XDGPositionerAnchor::BottomLeft => 6,
            XDGPositionerAnchor::TopRight => 7,
            XDGPositionerAnchor::BottomRight => 8,
        }
    }

    /// The anchor named by a numeric value, `None` if and only if the
    /// value is unknown.
    pub fn from_protocol(v: u32) -> (r: Option<XDGPositionerAnchor>)
        ensures
            r == Self::spec_from(v),
            r matches Some(a) ==> a.spec_value() == v,
            r is None <==> v > 8,
    {
        if v == 0 {
            Some(XDGPositionerAnchor::NoAnchor)
        } else if v == 1 {
            Some(XDGPositionerAnchor::Top)
        } else if v == 2 {
            Some(XDGPositionerAnchor::Bottom)
        } else if v == 3 {
            Some(XDGPositionerAnchor::Left)
        } else if v == 4 {
            Some(XDGPositionerAnchor::Right)
        } else if v == 5 {
            Some(XDGPositionerAnchor::TopLeft)
        } else if v == 6 {
            Some(XDGPositionerAnchor::BottomLeft)
        } else if v == 7 {
            Some(XDGPositionerAnchor::TopRight)
        } else if v == 8 {
            Some(XDGPositionerAnchor::BottomRight)
        } else {
            None
        }
    }
}

/// The direction a popup slides towards from its anchor point.
#[derive(Clone, Copy, PartialEq, Eq, Structural, Debug)]
pub enum XDGPositionerGravity {
    NoGravity,
    Top,
    Bottom,
    Left,
    Right,
    TopLeft,
    BottomLeft,
    TopRight,
    BottomRight,
}

impl XDGPositionerGravity {
    /// The numeric value of this gravity on the wire.
    pub open spec fn spec_value(self) -> u32 {
        match self {
            XDGPositionerGravity::NoGravity => 0,
            XDGPositionerGravity::Top => 1,
            XDGPositionerGravity::Bottom => 2,
            XDGPositionerGravity::Left => 3,
            XDGPositionerGravity::Right => 4,
            XDGPositionerGravity::TopLeft => 5,
            XDGPositionerGravity::BottomLeft => 6,
            XDGPositionerGravity::TopRight => 7,
            XDGPositionerGravity::BottomRight => 8,
        }
    }

    /// The gravity named by a numeric value, `None` for an unknown
    /// value.
    pub open spec fn spec_from(v: u32) -> Option<XDGPositionerGravity> {
        if v == 0 {
            Option::Some(XDGPositionerGravity::NoGravity)
        } else if v == 1 {
            Option::Some(XDGPositionerGravity::Top)
        } else if v == 2 {
            Option::Some(XDGPositionerGravity::Bottom)
        } else if v == 3 {
            Option::Some(XDGPositionerGravity::Left)
        } else if v == 4 {
            Option::Some(XDGPositionerGravity::Right)
        } else if v == 5 {
            Option::Some(XDGPositionerGravity::TopLeft)
        } else if v == 6 {
            Option::Some(XDGPositionerGravity::BottomLeft)
        } else if v == 7 {
            Option::Some(XDGPositionerGravity::TopRight)
        } else if v == 8 {
            Option::Some(XDGPositionerGravity::BottomRight)
        } else {
            Option::None
        }
    }

    /// The numeric value of this gravity on the wire.
    pub fn protocol_value(self) -> (r: u32)
        ensures
            r == self.spec_value(),
            Self::spec_from(r) == Some(self),
    {
        match self {
            XDGPositionerGravity::NoGravity => 0,
            XDGPositionerGravity::Top => 1,
            XDGPositionerGravity::Bottom => 2,
            XDGPositionerGravity::Left => 3,
            XDGPositionerGravity::Right => 4,
            XDGPositionerGravity::TopLeft => 5,
            XDGPositionerGravity::BottomLeft => 6,
            XDGPositionerGravity::TopRight => 7,
            XDGPositionerGravity::BottomRight => 8,
        }
    }

    /// The gravity named by a numeric value, `None` if and only if the
    /// value is unknown.
    pub fn from_protocol(v: u32) -> (r: Option<XDGPositionerGravity>)
        ensures
            r == Self::spec_from(v),
            r matches Some(g) ==> g.spec_value() == v,
            r is None <==> v > 8,
    {
        if v == 0 {
            Some(XDGPositionerGravity::NoGravity)
        } else if v == 1 {
            Some(XDGPositionerGravity::Top)
        } else if v == 2 {
            Some(XDGPositionerGravity::Bottom)
        } else if v == 3 {
            Some(XDGPositionerGravity::Left)
        } else if v == 4 {
            Some(XDGPositionerGravity::Right)
        } else if v == 5 {
            Some(XDGPositionerGravity::TopLeft)
        } else if v == 6 {
            Some(XDGPositionerGravity::BottomLeft)
        } else if v == 7 {
            Some(XDGPositionerGravity::TopRight)
        } else if v == 8 {
            Some(XDGPositionerGravity::BottomRight)
        } else {
            None
        }
    }
}

/// How a constrained popup may be adjusted to fit: a set drawn from
/// slide (1, 2), flip (4, 8) and resize (16, 32), each on the x and the
/// y axis.
#[derive(Clone, Copy, PartialEq, Eq, Structural, Debug)]
pub struct XDGPositionerConstraintAdjustment {
    pub bits: u32,
}

impl XDGPositionerConstraintAdjustment {
    /// Only the six adjustment bits may be set.
    pub open spec fn wf(self) -> bool {
        self.bits & 0xffff_ffc0u32 == 0
    }

    /// The empty set: no adjustment.
    pub fn none() -> (r: XDGPositionerConstraintAdjustment)
        ensures
            r.bits == 0,
            r.wf(),
    {
        proof {
            assert(0u32 & 0xffff_ffc0u32 == 0) by (bit_vector);
        }
        XDGPositionerConstraintAdjustment { bits: 0 }
    }

    /// The set holding the given numeric value, `None` if and only if a
    /// bit outside the six adjustments is set.
    pub fn from_bits(bits: u32) -> (r: Option<XDGPositionerConstraintAdjustment>)
        ensures
            bits & 0xffff_ffc0u32 == 0 <==> (r matches Some(c) && c.bits == bits && c.wf()),
            bits & 0xffff_ffc0u32 != 0 <==> r is None,
    {
        if bits & 0xffff_ffc0u32 == 0 {
            Some(XDGPositionerConstraintAdjustment { bits })
        } else {
            None
        }
    }

    /// Whether every adjustment of `other` is in this set.
    pub fn contains(&self, other: XDGPositionerConstraintAdjustment) -> (r: bool)
        ensures
            r == (self.bits & other.bits == other.bits),
    {
        self.bits & other.bits == other.bits
    }

    /// The union of the two sets, which is well formed when both are.
    pub fn union(&self, other: XDGPositionerConstraintAdjustment) -> (r:
        XDGPositionerConstraintAdjustment)
        ensures
            r.bits == self.bits | other.bits,
            self.wf() && other.wf() ==> r.wf(),
    {
        proof {
            let a = self.bits;
            let b = other.bits;
            assert(a & 0xffff_ffc0u32 == 0 && b & 0xffff_ffc0u32 == 0 ==> (a | b)
                & 0xffff_ffc0u32 == 0) by (bit_vector);
        }
        XDGPositionerConstraintAdjustment { bits: self.bits | other.bits }
    }
}

/// An xdg_positioner object.
pub struct XDGPositioner(pub wl_proxy);

impl Interface for XDGPositioner {
    open spec fn interface_name() -> Seq<char> {
        "xdg_positioner"@
    }

    /// destroy (0); set_size (1); set_anchor_rect (2); set_anchor (3);
    /// set_gravity (4); set_constraint_adjustment (5); set_offset (6);
    /// set_reactive (7); set_parent_size (8); set_parent_configure (9).
    open spec fn method_args(op: int) -> Option<Seq<WlArgSpec>> {
        if op == 0 || op == 7 {
            Option::Some(seq![])
        } else if op == 1 || op == 6 || op == 8 {
            Option::Some(
                seq![
                    WlArgSpec { kind: WlArgKind::Int, nullable: false },
                    WlArgSpec { kind: WlArgKind::Int, nullable: false },
                ],
            )
        } else if op == 2 {
            Option::Some(
                seq![
                    WlArgSpec { kind: WlArgKind::Int, nullable: false },
                    WlArgSpec { kind: WlArgKind::Int, nullable: false },
                    WlArgSpec { kind: WlArgKind::Int, nullable: false },
                    WlArgSpec { kind: WlArgKind::Int, nullable: false },
                ],
            )
        } else if op == 3 || op == 4 || op == 5 || op == 9 {
            Option::Some(seq![WlArgSpec { kind: WlArgKind::Uint, nullable: false }])
        } else {
            Option::None
        }
    }

    fn name() -> (r: String) {
        "xdg_positioner".to_owned()
    }
}

impl XDGPositioner {
    /// The interface description this library speaks: version 6 of
    /// xdg_positioner. Each method's declared signature parses to the
    /// arguments `method_args` gives for its opcode.
    pub fn interface() -> (r: wl_interface)
        ensures
            r.wf(),
            r@.name == "xdg_positioner"@,
            r@.version == 6,
            r@.methods.len() == 10,
            r@.methods[0].name == "destroy"@,
            r@.methods[1].name == "set_size"@,
            r@.methods[2].name == "set_anchor_rect"@,
            r@.methods[3].name == "set_anchor"@,
            r@.methods[4].name == "set_gravity"@,
            r@.methods[5].name == "set_constraint_adjustment"@,
            r@.methods[6].name == "set_offset"@,
            r@.methods[7].name == "set_reactive"@,
            r@.methods[8].name == "set_parent_size"@,
            r@.methods[9].name == "set_parent_configure"@,
            forall|op: int|
                0 <= op < 10 ==> Self::method_args(op) == Option::Some(
                    #[trigger] sig_args(r@.methods[op].signature),
                ),
            r@.events.len() == 0,
    {
        let mut methods: Vec<wl_message> = Vec::new();
        methods.push(wl_message::new("destroy", "", Vec::new()));
        methods.push(wl_message::new("set_size", "ii", vec![None, None]));
        methods.push(
            wl_message::new("set_anchor_rect", "iiii", vec![None, None, None, None]),
        );
        methods.push(wl_message::new("set_anchor", "u", vec![None]));
        methods.push(wl_message::new("set_gravity", "u", vec![None]));
        methods.push(wl_message::new("set_constraint_adjustment", "u", vec![None]));
        methods.push(wl_message::new("set_offset", "ii", vec![None, None]));
        methods.push(wl_message::new("set_reactive", "3", Vec::new()));
        methods.push(wl_message::new("set_parent_size", "3ii", vec![None, None]));
        methods.push(wl_message::new("set_parent_configure", "3u", vec![None]));
        let events: Vec<wl_message> = Vec::new();
        let r = wl_interface::new("xdg_positioner", 6, methods, events);
        proof {
            reveal_strlit("");
            reveal_strlit("ii");
            reveal_strlit("iiii");
            reveal_strlit("u");
            reveal_strlit("3");
            reveal_strlit("3ii");
            reveal_strlit("3u");
            reveal_with_fuel(sig_args_from, 6);
            assert(sig_args(""@) =~= Seq::<WlArgSpec>::empty());
            assert(sig_args("ii"@) =~= seq![
                WlArgSpec { kind: WlArgKind::Int, nullable: false },
                WlArgSpec { kind: WlArgKind::Int, nullable: false },
            ]);
            assert(sig_args("iiii"@) =~= seq![
                WlArgSpec { kind: WlArgKind::Int, nullable: false },
                WlArgSpec { kind: WlArgKind::Int, nullable: false },
                WlArgSpec { kind: WlArgKind::Int, nullable: false },
                WlArgSpec { kind: WlArgKind::Int, nullable: false },
            ]);
            assert(sig_args("u"@) =~= seq![WlArgSpec { kind: WlArgKind::Uint, nullable: false }]);
            assert(sig_args("3"@) =~= Seq::<WlArgSpec>::empty());
            assert(sig_args("3ii"@) =~= seq![
                WlArgSpec { kind: WlArgKind::Int, nullable: false },
                WlArgSpec { kind: WlArgKind::Int, nullable: false },
            ]);
            assert(sig_args("3u"@) =~= seq![WlArgSpec { kind: WlArgKind::Uint, nullable: false }]);
        }
        r
    }
}

} // verus!
