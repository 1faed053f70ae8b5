//! Callbacks: one-shot objects whose only event, `done`, reports that
//! whatever was asked for has happened.

use vstd::prelude::*;

use crate::sys::wl_proxy;
use crate::wire::WlArgSpec;
use crate::{Interface, OwnableInterface};

verus! {

/// What a client does with a callback's `done` event.
pub trait WlCallbackListener {
    fn done(&mut self, sender: &mut WlCallback, callback_data: u32);
}

/// A callback object.
pub struct WlCallback(pub wl_proxy);

/// A callback object together with its ownership.
pub type OwnedWlCallback = WlCallback;

impl Interface for WlCallback {
    open spec fn interface_name() -> Seq<char> {
        "wl_callback"@
    }

    /// A callback has no methods.
    open spec fn method_args(op: int) -> Option<Seq<WlArgSpec>> {
        Option::None
    }

    fn name() -> (r: String) {
        "wl_callback".to_owned()
    }
}

impl OwnableInterface for WlCallback {
    type OwnedType = OwnedWlCallback;

    open spec fn owned_proxy(owned: &OwnedWlCallback) -> wl_proxy {
        owned.0
    }

    fn take_from_proxy(p: wl_proxy) -> (r: OwnedWlCallback) {
        WlCallback(p)
    }
}

impl WlCallback {
    /// A callback marshals nothing, so its request log stays empty.
    pub open spec fn wf(self) -> bool {
        self.0.sent@.len() == 0
    }

    /// Attaches a listener; fails if and only if one is already attached.
    pub fn add_listener<L: WlCallbackListener>(&mut self, _listener: &mut L) -> (r: Result<
        (),
        (),
    >)
        ensures
            old(self).0.listener ==> r is Err && *final(self) == *old(self),
            !old(self).0.listener ==> r is Ok && final(self).0 == (wl_proxy {
                listener: true,
                ..old(self).0
            }),
    {
        self.0.attach_listener()
    }
}

} // verus!
