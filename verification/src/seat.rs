//! The seat global: a group of input devices. The demo only names it in
//! requests of other interfaces.

use vstd::prelude::*;

use crate::sys::wl_proxy;
use crate::wire::{WlArgKind, WlArgSpec};
use crate::{Interface, OwnableInterface};

verus! {

/// A seat object.
pub struct WlSeat(pub wl_proxy);

impl Interface for WlSeat {
    open spec fn interface_name() -> Seq<char> {
        "wl_seat"@
    }

    /// `get_pointer` (0), `get_keyboard` (1) and `get_touch` (2) each
    /// create one object; `release` (3) carries nothing.
    open spec fn method_args(op: int) -> Option<Seq<WlArgSpec>> {
        if op == 0 || op == 1 || op == 2 {
            Option::Some(seq![WlArgSpec { kind: WlArgKind::NewId, nullable: false }])
        } else if op == 3 {
            Option::Some(seq![])
        } else {
            Option::None
        }
    }

    fn name() -> (r: String) {
        "wl_seat".to_owned()
    }
}

impl OwnableInterface for WlSeat {
    type OwnedType = WlSeat;

    open spec fn owned_proxy(owned: &WlSeat) -> wl_proxy {
        owned.0
    }

    fn take_from_proxy(p: wl_proxy) -> (r: WlSeat) {
        WlSeat(p)
    }
}

} // verus!
