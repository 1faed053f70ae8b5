//! A verified model of a Wayland client shell for a small rendering demo.
//!
//! The library describes, over plain values, what the demo's windowing
//! layer does: the client-side protocol tables of the xdg-shell
//! extension, the requests each protocol object marshals, the numeric
//! codes of the protocol's enumerations, and the decisions the render
//! and event loops take. The process-level glue (sockets, GPU calls)
//! stays outside; it hands the library plain values and takes plain
//! values back.

use vstd::prelude::*;

pub mod callback;
pub mod compositor;
pub mod display;
pub mod game;
pub mod output;
pub mod registry;
pub mod seat;
pub mod shell;
pub mod surface;
pub mod sys;
pub mod wire;
pub mod xdg_popup;
pub mod xdg_positioner;
pub mod xdg_surface;
pub mod xdg_toplevel;
pub mod xdg_wm_base;

use crate::sys::wl_proxy;
use crate::wire::WlArgSpec;

verus! {

/// A protocol interface: its name on the wire and, for each method
/// opcode, the arguments the method declares.
pub trait Interface {
    /// The interface's name on the wire.
    spec fn interface_name() -> Seq<char>;

    /// The arguments of the method at opcode `op`, `None` where the
    /// interface has no such method.
    spec fn method_args(op: int) -> Option<Seq<WlArgSpec>>;

    /// The interface's name, as a value.
    fn name() -> (r: String)
        ensures
            r@ == Self::interface_name(),
    ;
}

/// An interface whose objects the registry can hand out: how an owned
/// object of the interface is made from a bare proxy.
pub trait OwnableInterface: Interface {
    type OwnedType;

    /// The proxy held by an owned object.
    spec fn owned_proxy(owned: &Self::OwnedType) -> wl_proxy;

    /// Wraps a bare proxy as an owned object of this interface.
    fn take_from_proxy(p: wl_proxy) -> (r: Self::OwnedType)
        ensures
            Self::owned_proxy(&r) == p,
    ;
}

} // verus!
