//! The registry: the object through which the server advertises its
//! globals and the client binds the ones it wants.

use vstd::prelude::*;

use crate::sys::{lemma_sent_one_log, proxy_fresh, sent_one, wl_interface, wl_proxy};
use crate::wire::{log_wf, request_wf, WlArgKind, WlArgSpec, WlArgValue};
use crate::{Interface, OwnableInterface};

verus! {

/// What a client does with the registry's `global` and `global_remove`
/// events.
pub trait WlRegistryListener {
    fn global(&mut self, sender: &mut WlRegistry, name: u32, interface: &str, version: u32);

    fn global_remove(&mut self, sender: &mut WlRegistry, name: u32);
}

/// The registry object.
pub struct WlRegistry(pub wl_proxy);

/// A registry object together with its ownership.
pub struct OwnedWlRegistry(pub WlRegistry);

impl Interface for WlRegistry {
    open spec fn interface_name() -> Seq<char> {
        "wl_registry"@
    }

    /// `bind` (opcode 0) carries the global's numeric name, the
    /// interface's name, the version asked for, and the new object's id.
    open spec fn method_args(op: int) -> Option<Seq<WlArgSpec>> {
        if op == 0 {
            Option::Some(
                seq![
                    WlArgSpec { kind: WlArgKind::Uint, nullable: false },
                    WlArgSpec { kind: WlArgKind::Str, nullable: false },
                    WlArgSpec { kind: WlArgKind::Uint, nullable: false },
                    WlArgSpec { kind: WlArgKind::NewId, nullable: false },
                ],
            )
        } else {
            Option::None
        }
    }

    fn name() -> (r: String) {
        "wl_registry".to_owned()
    }
}

impl OwnableInterface for WlRegistry {
    type OwnedType = OwnedWlRegistry;

    open spec fn owned_proxy(owned: &OwnedWlRegistry) -> wl_proxy {
        owned.0.0
    }

    fn take_from_proxy(p: wl_proxy) -> (r: OwnedWlRegistry) {
        OwnedWlRegistry(WlRegistry(p))
    }
}

impl WlRegistry {
    /// Every request sent on the registry is well formed against its
    /// method table.
    pub open spec fn wf(self) -> bool {
        log_wf(self.0.sent@, |op: int| Self::method_args(op))
    }

    /// Attaches a listener; fails if and only if one is already attached.
    pub fn add_listener<L: WlRegistryListener>(&mut self, _listener: &mut L) -> (r: Result<
        (),
        (),
    >)
        ensures
            old(self).0.listener ==> r is Err && *final(self) == *old(self),
            !old(self).0.listener ==> r is Ok && final(self).0 == (wl_proxy {
                listener: true,
                ..old(self).0
            }),
    {
        self.0.attach_listener()
    }

    /// Binds the global `name` as an object of the given interface,
    /// marshalling `bind` with the interface's name and the version and
    /// id the new object gets.
    pub fn bind_untyped(
        &mut self,
        name: u32,
        interface: &wl_interface,
        version: u32,
        new_id: u32,
    ) -> (r: wl_proxy)
        requires
            old(self).wf(),
            old(self).0.live(),
        ensures
            final(self).wf(),
            final(self).0.live(),
            sent_one(
                old(self).0,
                final(self).0,
                0,
                seq![
                    WlArgValue::Uint(name),
                    WlArgValue::Str(interface.name),
                    WlArgValue::Uint(version),
                    WlArgValue::NewId(new_id),
                ],
                false,
            ),
            proxy_fresh(r, new_id, version),
    {
        let args = vec![
            WlArgValue::Uint(name),
            WlArgValue::Str(interface.name.clone()),
            WlArgValue::Uint(version),
            WlArgValue::NewId(new_id),
        ];
        self.0.send(0, args, false);
        proof {
            lemma_sent_one_log(
                old(self).0,
                self.0,
                0,
                seq![
                    WlArgValue::Uint(name),
                    WlArgValue::Str(interface.name),
                    WlArgValue::Uint(version),
                    WlArgValue::NewId(new_id),
                ],
                false,
                |op: int| Self::method_args(op),
            );
        }
        wl_proxy::fresh(new_id, version)
    }

    /// Binds the global `name` as an object of the interface `T`,
    /// marshalling `bind` with `T`'s name and the version and id the new
    /// object gets.
    pub fn bind<T: OwnableInterface>(&mut self, name: u32, version: u32, new_id: u32) -> (r:
        T::OwnedType)
        requires
            old(self).wf(),
            old(self).0.live(),
        ensures
            final(self).wf(),
            final(self).0.live(),
            final(self).0.id == old(self).0.id,
            final(self).0.version == old(self).0.version,
            final(self).0.listener == old(self).0.listener,
            final(self).0.sent@.len() == old(self).0.sent@.len() + 1,
            final(self).0.sent@.subrange(0, old(self).0.sent@.len() as int) =~= old(self).0.sent@,
            ({
                let req = final(self).0.sent@.last();
                &&& req.opcode == 0
                &&& !req.destroys
                &&& req.args@.len() == 4
                &&& req.args@[0] == WlArgValue::Uint(name)
                &&& (req.args@[1] matches WlArgValue::Str(s) && s@ == T::interface_name())
                &&& req.args@[2] == WlArgValue::Uint(version)
                &&& req.args@[3] == WlArgValue::NewId(new_id)
            }),
            proxy_fresh(T::owned_proxy(&r), new_id, version),
    {
        let iface_name = T::name();
        let args = vec![
            WlArgValue::Uint(name),
            WlArgValue::Str(iface_name),
            WlArgValue::Uint(version),
            WlArgValue::NewId(new_id),
        ];
        let ghost args_view = args@;
        self.0.send(0, args, false);
        proof {
            assert(request_wf(self.0.sent@.last(), |op: int| Self::method_args(op)));
            lemma_sent_one_log(
                old(self).0,
                self.0,
                0,
                args_view,
                false,
                |op: int| Self::method_args(op),
            );
        }
        T::take_from_proxy(wl_proxy::fresh(new_id, version))
    }
}

} // verus!
