//! The compositor global: the object surfaces are created from.

use vstd::prelude::*;

use crate::surface::{OwnedWlSurface, WlSurface};
use crate::sys::{lemma_sent_one_log, proxy_fresh, sent_one, wl_proxy};
use crate::wire::{log_wf, WlArgKind, WlArgSpec, WlArgValue};
use crate::{Interface, OwnableInterface};

verus! {

/// The compositor object.
pub struct WlCompositor(pub wl_proxy);

/// A compositor object together with its ownership.
pub type OwnedWlCompositor = WlCompositor;

impl Interface for WlCompositor {
    open spec fn interface_name() -> Seq<char> {
        "wl_compositor"@
    }

    /// `create_surface` (opcode 0) and `create_region` (opcode 1) each
    /// create one object.
    open spec fn method_args(op: int) -> Option<Seq<WlArgSpec>> {
        if op == 0 || op == 1 {
            Option::Some(seq![WlArgSpec { kind: WlArgKind::NewId, nullable: false }])
        } else {
            Option::None
        }
    }

    fn name() -> (r: String) {
        "wl_compositor".to_owned()
    }
}

impl OwnableInterface for WlCompositor {
    type OwnedType = OwnedWlCompositor;

    open spec fn owned_proxy(owned: &OwnedWlCompositor) -> wl_proxy {
        owned.0
    }

    fn take_from_proxy(p: wl_proxy) -> (r: OwnedWlCompositor) {
        WlCompositor(p)
    }
}

impl WlCompositor {
    /// Every request sent on the compositor is well formed against its
    /// method table.
    pub open spec fn wf(self) -> bool {
        log_wf(self.0.sent@, |op: int| Self::method_args(op))
    }

    /// Asks the compositor for a new surface, marshalling
    /// `create_surface` (opcode 0) with the id the surface gets.
    pub fn create_surface(&mut self, new_id: u32) -> (r: OwnedWlSurface)
        requires
            old(self).wf(),
            old(self).0.live(),
        ensures
            final(self).wf(),
            final(self).0.live(),
            sent_one(old(self).0, final(self).0, 0, seq![WlArgValue::NewId(new_id)], false),
            proxy_fresh(r.0, new_id, old(self).0.version),
            r.wf(),
    {
        let version = self.0.version;
        self.0.send(0, vec![WlArgValue::NewId(new_id)], false);
        proof {
            lemma_sent_one_log(
                old(self).0,
                self.0,
                0,
                seq![WlArgValue::NewId(new_id)],
                false,
                |op: int| Self::method_args(op),
            );
        }
        WlSurface::take_from_proxy(wl_proxy::fresh(new_id, version))
    }
}

} // verus!
