//! The core objects of the client library, modelled over plain values.
//!
//! A proxy stands for one protocol object: its id, the interface version
//! it was created with, whether a listener is attached, and the log of
//! requests marshalled on it. An interface description holds the message
//! tables a protocol object advertises.

#![allow(non_camel_case_types)]

use vstd::prelude::*;

use crate::wire::{WlArgValue, WlRequest};

verus! {

/// One protocol object on the client side: its protocol id, the bound
/// interface version, whether a listener is attached, and every request
/// marshalled on it, oldest first.
pub struct wl_proxy {
    pub id: u32,
    pub version: u32,
    pub listener: bool,
    pub sent: Vec<WlRequest>,
}

/// Whether `p` is newly created with id `id` and version `version`: no
/// listener yet, nothing sent yet.
pub open spec fn proxy_fresh(p: wl_proxy, id: u32, version: u32) -> bool {
    &&& p.id == id
    &&& p.version == version
    &&& !p.listener
    &&& p.sent@.len() == 0
}

/// Whether `new_p` is `old_p` with exactly one more request: opcode `op`,
/// arguments `args`, destroy flag `destroys`.
pub open spec fn sent_one(
    old_p: wl_proxy,
    new_p: wl_proxy,
    op: u32,
    args: Seq<WlArgValue>,
    destroys: bool,
) -> bool {
    &&& new_p.id == old_p.id
    &&& new_p.version == old_p.version
    &&& new_p.listener == old_p.listener
    &&& new_p.sent@.len() == old_p.sent@.len() + 1
    &&& new_p.sent@.subrange(0, old_p.sent@.len() as int) =~= old_p.sent@
    &&& new_p.sent@.last().opcode == op
    &&& new_p.sent@.last().args@ =~= args
    &&& new_p.sent@.last().destroys == destroys
}

impl wl_proxy {
    /// No destroying request has been sent: the object can still be used.
    pub open spec fn live(self) -> bool {
        forall|i: int| 0 <= i < self.sent@.len() ==> !self.sent@[i].destroys
    }

    /// A newly created proxy with the given id and version.
    pub fn fresh(id: u32, version: u32) -> (r: wl_proxy)
        ensures
            proxy_fresh(r, id, version),
    {
        wl_proxy { id, version, listener: false, sent: Vec::new() }
    }

    /// Records one marshalled request.
    pub fn send(&mut self, op: u32, args: Vec<WlArgValue>, destroys: bool)
        ensures
            sent_one(*old(self), *final(self), op, args@, destroys),
    {
        self.sent.push(WlRequest { opcode: op, args, destroys });
    }

    /// Attaches a listener, which succeeds only once per proxy.
    pub fn attach_listener(&mut self) -> (r: Result<(), ()>)
        ensures
            old(self).listener ==> r is Err && *final(self) == *old(self),
            !old(self).listener ==> r is Ok && *final(self) == (wl_proxy {
                listener: true,
                ..*old(self)
            }),
    {
        if self.listener {
            Err(())
        } else {
            self.listener = true;
            Ok(())
        }
    }
}

/// The display-side state of a connection: the display is itself a
/// protocol object, the first one of every connection.
pub struct wl_display(pub wl_proxy);

/// After one well-formed request, the log is still well formed, and a
/// non-destroying request keeps the proxy usable.
pub proof fn lemma_sent_one_log(
    old_p: wl_proxy,
    new_p: wl_proxy,
    op: u32,
    args: Seq<WlArgValue>,
    destroys: bool,
    table: spec_fn(int) -> Option<Seq<crate::wire::WlArgSpec>>,
)
    requires
        sent_one(old_p, new_p, op, args, destroys),
        crate::wire::log_wf(old_p.sent@, table),
        crate::wire::request_wf(new_p.sent@.last(), table),
    ensures
        crate::wire::log_wf(new_p.sent@, table),
        old_p.live() && !destroys ==> new_p.live(),
{
    crate::wire::lemma_log_push_wf(old_p.sent@, new_p.sent@, table);
    if old_p.live() && !destroys {
        assert forall|i: int| 0 <= i < new_p.sent@.len() implies !new_p.sent@[i].destroys by {
            if i < old_p.sent@.len() {
                assert(new_p.sent@.subrange(0, old_p.sent@.len() as int)[i] == new_p.sent@[i]);
            } else {
                assert(new_p.sent@[i] == new_p.sent@.last());
            }
        }
    }
}

/// The mathematical value of one message description.
pub ghost struct MessageSpec {
    pub name: Seq<char>,
    pub signature: Seq<char>,
    pub types: Seq<Option<Seq<char>>>,
}

/// The mathematical value of one interface description.
pub ghost struct InterfaceSpec {
    pub name: Seq<char>,
    pub version: int,
    pub methods: Seq<MessageSpec>,
    pub events: Seq<MessageSpec>,
}

/// One message of an interface: its name, its signature string, and, for
/// each object-carrying argument, the name of the interface the argument
/// must belong to (`None`: untyped or no constraint).
pub struct wl_message {
    pub name: String,
    pub signature: String,
    pub types: Vec<Option<String>>,
}

impl View for wl_message {
    type V = MessageSpec;

    open spec fn view(&self) -> MessageSpec {
        MessageSpec {
            name: self.name@,
            signature: self.signature@,
            types: self.types@.map_values(
                |t: Option<String>|
                    match t {
                        Option::Some(s) => Option::Some(s@),
                        Option::None => Option::None,
                    },
            ),
        }
    }
}

impl wl_message {
    /// Builds one message description.
    pub fn new(name: &str, signature: &str, types: Vec<Option<String>>) -> (r: wl_message)
        ensures
            r@.name == name@,
            r@.signature == signature@,
            r.types@ == types@,
    {
        wl_message { name: name.to_owned(), signature: signature.to_owned(), types }
    }
}

/// One interface description: its name, the version this library speaks,
/// and its method and event tables, each message counted.
pub struct wl_interface {
    pub name: String,
    pub version: i32,
    pub method_count: i32,
    pub methods: Vec<wl_message>,
    pub event_count: i32,
    pub events: Vec<wl_message>,
}

impl View for wl_interface {
    type V = InterfaceSpec;

    open spec fn view(&self) -> InterfaceSpec {
        InterfaceSpec {
            name: self.name@,
            version: self.version as int,
            methods: self.methods@.map_values(|m: wl_message| m@),
            events: self.events@.map_values(|m: wl_message| m@),
        }
    }
}

impl wl_interface {
    /// The counts agree with the tables.
    pub open spec fn wf(self) -> bool {
        &&& self.method_count == self.methods@.len()
        &&& self.event_count == self.events@.len()
    }

    /// Builds one interface description.
    pub fn new(name: &str, version: i32, methods: Vec<wl_message>, events: Vec<wl_message>) -> (r:
        wl_interface)
        requires
            methods@.len() <= i32::MAX,
            events@.len() <= i32::MAX,
        ensures
            r.wf(),
            r@.name == name@,
            r@.version == version,
            r.methods@ == methods@,
            r.events@ == events@,
    {
        let method_count = methods.len() as i32;
        let event_count = events.len() as i32;
        wl_interface {
            name: name.to_owned(),
            version,
            method_count,
            methods,
            event_count,
            events,
        }
    }
}

/// An array event argument, read as the unsigned 32-bit values the demo's
/// listeners take out of it.
pub struct wl_array {
    pub data: Vec<u32>,
}

impl wl_array {
    /// The values held, in order.
    pub fn as_slice_of(&self) -> (r: &Vec<u32>)
        ensures
            r@ == self.data@,
    {
        &self.data
    }
}

} // verus!
