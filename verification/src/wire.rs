//! The client side of the Wayland wire format, modelled over plain values.
//!
//! A protocol message declares its arguments in a signature string: one
//! letter per argument (`i`, `u`, `f`, `s`, `o`, `n`, `a`, `h`), a `?`
//! marking the following argument as nullable, and digits giving the
//! protocol version the message appeared in. A request actually sent on a
//! proxy carries a list of argument values. This module defines both sides
//! and the predicate that ties them together.

use vstd::prelude::*;

verus! {

/// The kind of a single protocol argument, one per signature letter.
#[derive(Clone, Copy, PartialEq, Eq, Structural, Debug)]
pub enum WlArgKind {
    /// `i`: signed 32-bit integer
    Int,
    /// `u`: unsigned 32-bit integer
    Uint,
    /// `f`: signed 24.8 fixed-point number
    Fixed,
    /// `s`: string
    Str,
    /// `o`: object id
    Object,
    /// `n`: id of a newly created object
    NewId,
    /// `a`: array
    Array,
    /// `h`: file descriptor
    Fd,
}

/// One declared argument: its kind and whether a null value is accepted.
#[derive(Clone, Copy, PartialEq, Eq, Structural, Debug)]
pub struct WlArgSpec {
    pub kind: WlArgKind,
    pub nullable: bool,
}

/// Whether `c` is one of the eight argument letters.
pub open spec fn spec_is_arg_char(c: char) -> bool {
    c == 'i' || c == 'u' || c == 'f' || c == 's' || c == 'o' || c == 'n' || c == 'a' || c == 'h'
}

/// The argument kind a signature letter stands for.
pub open spec fn spec_arg_kind(c: char) -> WlArgKind {
    if c == 'i' {
        WlArgKind::Int
    } else if c == 'u' {
        WlArgKind::Uint
    } else if c == 'f' {
        WlArgKind::Fixed
    } else if c == 's' {
        WlArgKind::Str
    } else if c == 'o' {
        WlArgKind::Object
    } else if c == 'n' {
        WlArgKind::NewId
    } else if c == 'a' {
        WlArgKind::Array
    } else {
        WlArgKind::Fd
    }
}

/// The arguments declared by the signature `s` from position `i` on.
/// Digits (version markers) carry no argument; `?` makes the next
/// argument letter nullable.
pub open spec fn sig_args_from(s: Seq<char>, i: int) -> Seq<WlArgSpec>
    decreases s.len() - i,
{
    if i < 0 || i >= s.len() {
        seq![]
    } else if s[i] == '?' {
        if i + 1 < s.len() && spec_is_arg_char(s[i + 1]) {
            seq![WlArgSpec { kind: spec_arg_kind(s[i + 1]), nullable: true }] + sig_args_from(
                s,
                i + 2,
            )
        } else {
            sig_args_from(s, i + 1)
        }
    } else if spec_is_arg_char(s[i]) {
        seq![WlArgSpec { kind: spec_arg_kind(s[i]), nullable: false }] + sig_args_from(s, i + 1)
    } else {
        sig_args_from(s, i + 1)
    }
}

/// The arguments declared by the whole signature `s`.
pub open spec fn sig_args(s: Seq<char>) -> Seq<WlArgSpec> {
    sig_args_from(s, 0)
}

fn is_arg_char(c: char) -> (r: bool)
    ensures
        r == spec_is_arg_char(c),
{
    c == 'i' || c == 'u' || c == 'f' || c == 's' || c == 'o' || c == 'n' || c == 'a' || c == 'h'
}

fn arg_kind_of(c: char) -> (r: WlArgKind)
    ensures
        r == spec_arg_kind(c),
{
    if c == 'i' {
        WlArgKind::Int
    } else if c == 'u' {
        WlArgKind::Uint
    } else if c == 'f' {
        WlArgKind::Fixed
    } else if c == 's' {
        WlArgKind::Str
    } else if c == 'o' {
        WlArgKind::Object
    } else if c == 'n' {
        WlArgKind::NewId
    } else if c == 'a' {
        WlArgKind::Array
    } else {
        WlArgKind::Fd
    }
}

/// Parses a signature string into the argument list it declares.
pub fn parse_signature(s: &str) -> (r: Vec<WlArgSpec>)
    ensures
        r@ == sig_args(s@),
{
    let n = s.unicode_len();
    let mut r: Vec<WlArgSpec> = Vec::new();
    let mut i: usize = 0;
    while i < n
        invariant
            n == s@.len(),
            i <= n,
            sig_args(s@) == r@ + sig_args_from(s@, i as int),
        decreases n - i,
    {
        let c = s.get_char(i);
        if c == '?' {
            if i + 1 < n {
                let c2 = s.get_char(i + 1);
                if is_arg_char(c2) {
                    r.push(WlArgSpec { kind: arg_kind_of(c2), nullable: true });
                    i = i + 2;
                } else {
                    i = i + 1;
                }
            } else {
                i = i + 1;
            }
        } else if is_arg_char(c) {
            r.push(WlArgSpec { kind: arg_kind_of(c), nullable: false });
            i = i + 1;
        } else {
            i = i + 1;
        }
        proof {
            assert(sig_args(s@) =~= r@ + sig_args_from(s@, i as int));
        }
    }
    proof {
        assert(sig_args(s@) =~= r@);
    }
    r
}

/// One argument value carried by a request. `Object(None)` is a null
/// object reference; otherwise object and new-id values name the
/// referenced object's protocol id.
#[derive(Clone, PartialEq, Eq, Debug)]
pub enum WlArgValue {
    Int(i32),
    Uint(u32),
    Fixed(i32),
    Str(String),
    Object(Option<u32>),
    NewId(u32),
    Array(Vec<u32>),
    Fd(i32),
}

/// Whether the value `a` fits the declared argument `sp`.
pub open spec fn arg_fits(a: WlArgValue, sp: WlArgSpec) -> bool {
    match sp.kind {
        WlArgKind::Int => a is Int,
        WlArgKind::Uint => a is Uint,
        WlArgKind::Fixed => a is Fixed,
        WlArgKind::Str => a is Str,
        WlArgKind::Object => a matches WlArgValue::Object(x) && (sp.nullable || x is Some),
        WlArgKind::NewId => a is NewId,
        WlArgKind::Array => a is Array,
        WlArgKind::Fd => a is Fd,
    }
}

/// Whether the value list `args` fits the declared argument list `sps`.
pub open spec fn args_match(args: Seq<WlArgValue>, sps: Seq<WlArgSpec>) -> bool {
    &&& args.len() == sps.len()
    &&& forall|i: int| 0 <= i < args.len() ==> arg_fits(args[i], sps[i])
}

/// One request recorded on a proxy: the method opcode, the argument
/// values, and whether the request destroys the proxy.
#[derive(Clone, PartialEq, Eq, Debug)]
pub struct WlRequest {
    pub opcode: u32,
    pub args: Vec<WlArgValue>,
    pub destroys: bool,
}

/// Whether the request `r` is well formed against `table`, which maps an
/// opcode to the arguments its method declares (`None`: no such method).
pub open spec fn request_wf(r: WlRequest, table: spec_fn(int) -> Option<Seq<WlArgSpec>>) -> bool {
    match table(r.opcode as int) {
        Option::Some(sps) => args_match(r.args@, sps),
        Option::None => false,
    }
}

/// Whether every request in the log `s` is well formed against `table`.
pub open spec fn log_wf(s: Seq<WlRequest>, table: spec_fn(int) -> Option<Seq<WlArgSpec>>) -> bool {
    forall|i: int| 0 <= i < s.len() ==> request_wf(s[i], table)
}

/// A log stays well formed when one more well-formed request is appended.
pub proof fn lemma_log_push_wf(
    a: Seq<WlRequest>,
    b: Seq<WlRequest>,
    table: spec_fn(int) -> Option<Seq<WlArgSpec>>,
)
    requires
        log_wf(a, table),
        b.len() == a.len() + 1,
        b.subrange(0, a.len() as int) =~= a,
        request_wf(b.last(), table),
    ensures
        log_wf(b, table),
{
    assert forall|i: int| 0 <= i < b.len() implies request_wf(b[i], table) by {
        if i < a.len() {
            assert(b.subrange(0, a.len() as int)[i] == b[i]);
        } else {
            assert(b[i] == b.last());
        }
    }
}

} // verus!
