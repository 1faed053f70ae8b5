//! Surfaces: the compositor-side canvases a client draws into.

use vstd::prelude::*;

use crate::callback::{OwnedWlCallback, WlCallback};
use crate::sys::{lemma_sent_one_log, proxy_fresh, sent_one, wl_proxy};
use crate::wire::{log_wf, WlArgKind, WlArgSpec, WlArgValue};
use crate::{Interface, OwnableInterface};

verus! {

/// The protocol error codes a surface can raise.
#[derive(Clone, Copy, PartialEq, Eq, Structural, Debug)]
pub enum WlSurfaceError {
    /// buffer scale value is invalid
    InvalidScale,
    /// buffer transform value is invalid
    InvalidTransform,
    /// buffer size is invalid
    InvalidSize,
    /// buffer offset is invalid
    InvalidOffset,
    /// surface was destroyed before its role object
    DefunctRoleObject,
}

impl WlSurfaceError {
    /// The numeric code of this error on the wire.
    pub open spec fn spec_value(self) -> u32 {
        match self {
            WlSurfaceError::InvalidScale => 0,
            WlSurfaceError::InvalidTransform => 1,
            WlSurfaceError::InvalidSize => 2,
            WlSurfaceError::InvalidOffset => 3,
            WlSurfaceError::DefunctRoleObject => 4,
        }
    }

    /// The error named by a numeric code, `None` for an unknown code.
    pub open spec fn spec_from(v: u32) -> Option<WlSurfaceError> {
        if v == 0 {
            Option::Some(WlSurfaceError::InvalidScale)
        } else if v == 1 {
            Option::Some(WlSurfaceError::InvalidTransform)
        } else if v == 2 {
            Option::Some(WlSurfaceError::InvalidSize)
        } else if v == 3 {
            Option::Some(WlSurfaceError::InvalidOffset)
        } else if v == 4 {
            Option::Some(WlSurfaceError::DefunctRoleObject)
        } else {
            Option::None
        }
    }

    /// The numeric code of this error on the wire.
    pub fn protocol_value(self) -> (r: u32)
        ensures
            r == self.spec_value(),
            Self::spec_from(r) == Some(self),
    {
        match self {
            WlSurfaceError::InvalidScale => 0,
            WlSurfaceError::InvalidTransform => 1,
            WlSurfaceError::InvalidSize => 2,
            WlSurfaceError::InvalidOffset => 3,
            WlSurfaceError::DefunctRoleObject => 4,
        }
    }

    /// The error named by a numeric code, `None` if and only if the code
    /// is unknown.
    pub fn from_protocol(v: u32) -> (r: Option<WlSurfaceError>)
        ensures
            r == Self::spec_from(v),
            r matches Some(e) ==> e.spec_value() == v,
            r is None <==> v > 4,
    {
        if v == 0 {
            Some(WlSurfaceError::InvalidScale)
        } else if v == 1 {
            Some(WlSurfaceError::InvalidTransform)
        } else if v == 2 {
            Some(WlSurfaceError::InvalidSize)
        } else if v == 3 {
            Some(WlSurfaceError::InvalidOffset)
        } else if v == 4 {
            Some(WlSurfaceError::DefunctRoleObject)
        } else {
            None
        }
    }
}

/// A surface object.
pub struct WlSurface(pub wl_proxy);

/// A surface object together with its ownership.
pub type OwnedWlSurface = WlSurface;

impl Interface for WlSurface {
    open spec fn interface_name() -> Seq<char> {
        "wl_surface"@
    }

    /// The surface's methods: destroy (0), attach (1), damage (2),
    /// frame (3), set_opaque_region (4), set_input_region (5),
    /// commit (6), set_buffer_transform (7), set_buffer_scale (8),
    /// damage_buffer (9), offset (10).
    open spec fn method_args(op: int) -> Option<Seq<WlArgSpec>> {
        if op == 0 || op == 6 {
            Option::Some(seq![])
        } else if op == 1 {
            Option::Some(
                seq![
                    WlArgSpec { kind: WlArgKind::Object, nullable: true },
                    WlArgSpec { kind: WlArgKind::Int, nullable: false },
                    WlArgSpec { kind: WlArgKind::Int, nullable: false },
                ],
            )
        } else if op == 2 || op == 9 {
            Option::Some(
                seq![
                    WlArgSpec { kind: WlArgKind::Int, nullable: false },
                    WlArgSpec { kind: WlArgKind::Int, nullable: false },
                    WlArgSpec { kind: WlArgKind::Int, nullable: false },
                    WlArgSpec { kind: WlArgKind::Int, nullable: false },
                ],
            )
        } else if op == 3 {
            Option::Some(seq![WlArgSpec { kind: WlArgKind::NewId, nullable: false }])
        } else if op == 4 || op == 5 {
            Option::Some(seq![WlArgSpec { kind: WlArgKind::Object, nullable: true }])
        } else if op == 7 || op == 8 {
            Option::Some(seq![WlArgSpec { kind: WlArgKind::Int, nullable: false }])
        } else if op == 10 {
            Option::Some(
                seq![
                    WlArgSpec { kind: WlArgKind::Int, nullable: false },
                    WlArgSpec { kind: WlArgKind::Int, nullable: false },
                ],
            )
        } else {
            Option::None
        }
    }

    fn name() -> (r: String) {
        "wl_surface".to_owned()
    }
}

impl OwnableInterface for WlSurface {
    type OwnedType = OwnedWlSurface;

    open spec fn owned_proxy(owned: &OwnedWlSurface) -> wl_proxy {
        owned.0
    }

    fn take_from_proxy(p: wl_proxy) -> (r: OwnedWlSurface) {
        WlSurface(p)
    }
}

impl WlSurface {
    /// Every request sent on the surface is well formed against its
    /// method table.
    pub open spec fn wf(self) -> bool {
        log_wf(self.0.sent@, |op: int| Self::method_args(op))
    }

    /// The surface's handle, for handing to the layer that creates a
    /// rendering surface over it.
    pub fn as_raw_ptr_mut(&mut self) -> (r: &mut wl_proxy)
        ensures
            *r == old(self).0,
            final(self).0 == *final(r),
    {
        &mut self.0
    }

    /// Destroys the surface, marshalling `destroy` (opcode 0); nothing
    /// more can be sent on it afterwards.
    pub fn destroy(&mut self)
        requires
            old(self).wf(),
            old(self).0.live(),
        ensures
            final(self).wf(),
            !final(self).0.live(),
            sent_one(old(self).0, final(self).0, 0, seq![], true),
    {
        self.0.send(0, Vec::new(), true);
        proof {
            lemma_sent_one_log(
                old(self).0,
                self.0,
                0,
                seq![],
                true,
                |op: int| Self::method_args(op),
            );
            assert(self.0.sent@[self.0.sent@.len() - 1].destroys);
        }
    }

    /// Asks for a callback that fires when the next frame should be
    /// drawn, marshalling `frame` (opcode 3) with the id the callback
    /// gets.
    pub fn frame(&mut self, new_id: u32) -> (r: OwnedWlCallback)
        requires
            old(self).wf(),
            old(self).0.live(),
        ensures
            final(self).wf(),
            final(self).0.live(),
            sent_one(old(self).0, final(self).0, 3, seq![WlArgValue::NewId(new_id)], false),
            proxy_fresh(r.0, new_id, old(self).0.version),
    {
        let version = self.0.version;
        self.0.send(3, vec![WlArgValue::NewId(new_id)], false);
        proof {
            lemma_sent_one_log(
                old(self).0,
                self.0,
                3,
                seq![WlArgValue::NewId(new_id)],
                false,
                |op: int| Self::method_args(op),
            );
        }
        WlCallback::take_from_proxy(wl_proxy::fresh(new_id, version))
    }

    /// Applies the surface's pending state, marshalling `commit`
    /// (opcode 6).
    pub fn commit(&mut self)
        requires
            old(self).wf(),
            old(self).0.live(),
        ensures
            final(self).wf(),
            final(self).0.live(),
            sent_one(old(self).0, final(self).0, 6, seq![], false),
    {
        self.0.send(6, Vec::new(), false);
        proof {
            lemma_sent_one_log(
                old(self).0,
                self.0,
                6,
                seq![],
                false,
                |op: int| Self::method_args(op),
            );
        }
    }
}

} // verus!
