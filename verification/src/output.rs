//! The output global: one monitor. The demo only names it in requests of
//! other interfaces.

use vstd::prelude::*;

use crate::sys::wl_proxy;
use crate::wire::WlArgSpec;
use crate::{Interface, OwnableInterface};

verus! {

/// An output object.
pub struct WlOutput(pub wl_proxy);

impl Interface for WlOutput {
    open spec fn interface_name() -> Seq<char> {
        "wl_output"@
    }

    /// `release` (opcode 0) carries nothing.
    open spec fn method_args(op: int) -> Option<Seq<WlArgSpec>> {
        if op == 0 {
            Option::Some(seq![])
        } else {
            Option::None
        }
    }

    fn name() -> (r: String) {
        "wl_output".to_owned()
    }
}

impl OwnableInterface for WlOutput {
    type OwnedType = WlOutput;

    open spec fn owned_proxy(owned: &WlOutput) -> wl_proxy {
        owned.0
    }

    fn take_from_proxy(p: wl_proxy) -> (r: WlOutput) {
        WlOutput(p)
    }
}

} // verus!
