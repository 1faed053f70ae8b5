//! The display: the connection's first object, from which the registry
//! is obtained.

use vstd::prelude::*;

use crate::registry::{OwnedWlRegistry, WlRegistry};
use crate::sys::{lemma_sent_one_log, proxy_fresh, sent_one, wl_display, wl_proxy};
use crate::wire::{log_wf, WlArgKind, WlArgSpec, WlArgValue};
use crate::OwnableInterface;

verus! {

/// A live connection to a display server. Its display is protocol
/// object 1.
pub struct WlDisplayConnection(pub WlDisplay);

impl WlDisplayConnection {
    /// A fresh connection: the display object has id 1, version 1, and
    /// an empty request log.
    pub fn new() -> (r: WlDisplayConnection)
        ensures
            proxy_fresh(r.0.0.0, 1, 1),
            r.0.wf(),
    {
        WlDisplayConnection(WlDisplay(wl_display(wl_proxy::fresh(1, 1))))
    }
}

/// The display object.
pub struct WlDisplay(pub wl_display);

impl WlDisplay {
    /// The display's methods each create one object: `sync` (opcode 0)
    /// and `get_registry` (opcode 1).
    pub open spec fn method_args(op: int) -> Option<Seq<WlArgSpec>> {
        if op == 0 || op == 1 {
            Option::Some(seq![WlArgSpec { kind: WlArgKind::NewId, nullable: false }])
        } else {
            Option::None
        }
    }

    /// Every request sent on the display is well formed against its
    /// method table.
    pub open spec fn wf(self) -> bool {
        log_wf(self.0.0.sent@, |op: int| Self::method_args(op))
    }

    /// The display's underlying connection state, for handing to the
    /// layer that creates a rendering surface over it.
    pub fn as_raw_ptr_mut(&mut self) -> (r: &mut wl_display)
        ensures
            *r == old(self).0,
            final(self).0 == *final(r),
    {
        &mut self.0
    }

    /// Asks the server for the registry, marshalling `get_registry`
    /// (opcode 1) with the id the registry gets.
    pub fn get_registry(&mut self, new_id: u32) -> (r: OwnedWlRegistry)
        requires
            old(self).wf(),
            old(self).0.0.live(),
        ensures
            final(self).wf(),
            final(self).0.0.live(),
            sent_one(
                old(self).0.0,
                final(self).0.0,
                1,
                seq![WlArgValue::NewId(new_id)],
                false,
            ),
            proxy_fresh(r.0.0, new_id, old(self).0.0.version),
            r.0.wf(),
    {
        let version = self.0.0.version;
        self.0.0.send(1, vec![WlArgValue::NewId(new_id)], false);
        proof {
            lemma_sent_one_log(
                old(self).0.0,
                self.0.0,
                1,
                seq![WlArgValue::NewId(new_id)],
                false,
                |op: int| Self::method_args(op),
            );
        }
        WlRegistry::take_from_proxy(wl_proxy::fresh(new_id, version))
    }
}

} // verus!
