//! Device provisioning, Linux ABI: the fixed-layout attach request, its flag
//! set, and the read-back of the kernel-resolved interface name.
//!
//! The request mirrors the kernel's interface-request record: 40 bytes, a
//! 16-byte NUL-padded name field at offset 0 and a 16-bit flag word at offset
//! 16 (stored low byte first, as the host lays it out). The kernel mutates
//! the record in place during the attach call and reports the final interface
//! name in the name field; the name must afterwards be read back from the
//! mutated record, never taken from the requested string.

use vstd::prelude::*;

use crate::bytes::{find_byte, first_occurrence, lemma_first_occurrence_is};
use crate::error::TunError;

verus! {

/// Attach-request flag: TUN device, operating at the network layer.
pub const IFF_TUN: u16 = 0x0001;

/// Attach-request flag: TAP device, operating at the link layer.
pub const IFF_TAP: u16 = 0x0002;

/// Attach-request flag: no packet-information prefix on frames.
pub const IFF_NO_PI: u16 = 0x1000;

/// Attach-request flag: several descriptors may share the interface.
pub const IFF_MULTI_QUEUE: u16 = 0x0100;

/// The size of the interface name field, terminating NUL included.
pub const IFNAMSIZ: usize = 16;

/// The size of the whole attach-request record.
pub const IFREQ_SIZE: usize = 40;

/// Open-time flag for a descriptor that must not block: the value of the
/// kernel's non-blocking open flag on Linux.
pub const O_NONBLOCK_FLAG: i32 = 0x800;

/// Which layer the tunnel interface operates at: `L2` is a link-layer TAP
/// device, `L3` a network-layer TUN device.
#[derive(Clone, Copy, Debug, PartialEq, Eq, Structural)]
pub enum Layer {
    L2,
    L3,
}

/// The extra open flags for the tunnel control node. The queue's blocking
/// mode is decided at open time: a non-blocking queue needs the descriptor
/// opened non-blocking, a blocking one needs no extra flag.
pub fn custom_open_flags(blocking: bool) -> (f: i32)
    ensures
        f == if blocking { 0i32 } else { O_NONBLOCK_FLAG },
{
    if blocking {
        0
    } else {
        O_NONBLOCK_FLAG
    }
}

/// The flag word of an attach request: the layer selector, always the
/// no-packet-info flag, and the multi-queue flag only when the kernel
/// supports it. The flag bits are disjoint, so the word is their sum.
pub open spec fn spec_attach_flags(layer: Layer, multiqueue: bool) -> int {
    (if layer is L2 {
        IFF_TAP
    } else {
        IFF_TUN
    }) + IFF_NO_PI + (if multiqueue {
        IFF_MULTI_QUEUE
    } else {
        0u16
    })
}

/// Builds the attach-request flag word for a layer and a multi-queue
/// decision: `0x1002`/`0x1001` for L2/L3, plus `0x0100` under multi-queue.
pub fn attach_flags(layer: Layer, multiqueue: bool) -> (f: u16)
    ensures
        f == spec_attach_flags(layer, multiqueue),
{
    let base: u16 = if layer == Layer::L2 {
        IFF_TAP
    } else {
        IFF_TUN
    };
    let mut flags: u16 = base | IFF_NO_PI;
    proof {
        assert(0x0002u16 | 0x1000u16 == 0x1002u16) by (bit_vector);
        assert(0x0001u16 | 0x1000u16 == 0x1001u16) by (bit_vector);
    }
    if multiqueue {
        flags = flags | IFF_MULTI_QUEUE;
        proof {
            assert(0x1002u16 | 0x0100u16 == 0x1102u16) by (bit_vector);
            assert(0x1001u16 | 0x0100u16 == 0x1101u16) by (bit_vector);
        }
    }
    flags
}

/// The attach-request record as the kernel ABI lays it out: 40 bytes, the
/// requested name NUL-padded in the first 16, the flag word at offset 16
/// low byte first, zeroes elsewhere.
pub open spec fn request_layout(req: Seq<u8>, name: Seq<u8>, flags: int) -> bool {
    &&& req.len() == 40
    &&& forall|i: int| 0 <= i < name.len() ==> req[i] == name[i]
    &&& forall|i: int| name.len() <= i < 16 ==> req[i] == 0
    &&& req[16] == (flags % 256) as u8
    &&& req[17] == (flags / 256) as u8
    &&& forall|i: int| 18 <= i < 40 ==> req[i] == 0
}

/// Builds the attach-request record for a requested interface name and a
/// flag word.
///
/// The name must leave room for the terminating NUL and must not itself
/// contain one; the kernel ABI has no representation for anything else.
pub fn build_attach_request(name: &[u8], flags: u16) -> (req: Vec<u8>)
    requires
        name@.len() < 16,
        forall|i: int| 0 <= i < name@.len() ==> name@[i] != 0,
    ensures
        request_layout(req@, name@, flags as int),
{
    let mut req: Vec<u8> = Vec::new();
    let n = name.len();
    let mut i: usize = 0;
    while i < n
        invariant
            i <= n,
            n == name@.len(),
            req@.len() == i,
            forall|j: int| 0 <= j < i ==> req@[j] == name@[j],
        decreases n - i,
    {
        req.push(name[i]);
        i = i + 1;
    }
    while req.len() < 16
        invariant
            n == name@.len() < 16,
            n <= req@.len() <= 16,
            forall|j: int| 0 <= j < n ==> req@[j] == name@[j],
            forall|j: int| n <= j < req@.len() ==> req@[j] == 0,
        decreases 16 - req.len(),
    {
        let ghost prev = req@;
        req.push(0);
        proof {
            assert(forall|j: int| 0 <= j < prev.len() ==> req@[j] == prev[j]);
        }
    }
    req.push((flags % 256) as u8);
    req.push((flags / 256) as u8);
    while req.len() < 40
        invariant
            n == name@.len() < 16,
            18 <= req@.len() <= 40,
            forall|j: int| 0 <= j < n ==> req@[j] == name@[j],
            forall|j: int| n <= j < 16 ==> req@[j] == 0,
            req@[16] == (flags % 256) as u8,
            req@[17] == (flags / 256) as u8,
            forall|j: int| 18 <= j < req@.len() ==> req@[j] == 0,
        decreases 40 - req.len(),
    {
        let ghost prev = req@;
        req.push(0);
        proof {
            assert(forall|j: int| 0 <= j < prev.len() ==> req@[j] == prev[j]);
        }
    }
    req
}

/// Everything decided before the attach call is issued: the open flags for
/// the control node, the multi-queue capability verdict, and the
/// ready-to-issue attach-request record.
pub struct AttachPlan {
    /// Extra flags for opening the control node; non-blocking mode is
    /// decided here, not later.
    pub open_flags: i32,
    /// Whether the running kernel takes multi-queue interfaces; when it
    /// does not, the flag is simply omitted — a graceful degradation the
    /// caller may warn about, never an error.
    pub multiqueue: bool,
    /// The attach-request record to hand to the attach call.
    pub request: Vec<u8>,
}

/// The whole provisioning decision, from requested name, layer, blocking
/// mode and the running kernel's release string to the attach request that
/// is issued. Every step is fixed by the ensures: the open flags by the
/// blocking mode, the multi-queue verdict by the release string alone, and
/// the record's layout byte for byte.
pub fn plan_device(name: &[u8], layer: Layer, blocking: bool, kernel_release: &[u8]) -> (p:
    AttachPlan)
    requires
        name@.len() < 16,
        forall|i: int| 0 <= i < name@.len() ==> name@[i] != 0,
    ensures
        p.open_flags == if blocking { 0i32 } else { O_NONBLOCK_FLAG },
        p.multiqueue == crate::version::spec_multiqueue_supported(kernel_release@),
        request_layout(p.request@, name@, spec_attach_flags(layer, p.multiqueue)),
{
    let open_flags = custom_open_flags(blocking);
    let multiqueue = crate::version::multiqueue_supported(kernel_release);
    let flags = attach_flags(layer, multiqueue);
    let request = build_attach_request(name, flags);
    AttachPlan { open_flags, multiqueue, request }
}

/// The 16-byte name field of an attach-request record.
pub open spec fn name_field(req: Seq<u8>) -> Seq<u8> {
    req.take(16)
}

/// The interface name as the kernel left it: the name field's bytes before
/// the first NUL.
pub open spec fn kernel_name_bytes(req: Seq<u8>) -> Seq<u8> {
    name_field(req).take(first_occurrence(name_field(req), 0))
}

/// What decoding a byte run as UTF-8 text yields, when it is valid.
pub uninterp spec fn utf8_decode(s: Seq<u8>) -> Option<Seq<char>>;

/// Relies on `String::from_utf8`: `Ok` exactly when the bytes are valid
/// UTF-8, and the decoded text depends on the bytes alone.
#[verifier::external_body]
fn bytes_to_string(v: Vec<u8>) -> (r: Option<String>)
    ensures
        r matches Some(s) ==> utf8_decode(v@) == Some(s@),
        r is None ==> utf8_decode(v@) is None,
{
    match String::from_utf8(v) {
        Ok(s) => Some(s),
        Err(_) => None,
    }
}

/// Reads the kernel-resolved interface name back from the attach-request
/// record as the attach call left it.
///
/// The name field must be NUL-terminated and its bytes before the first NUL
/// must decode as text; otherwise the name error carries the raw field.
pub fn resolved_name(req: &[u8]) -> (r: Result<String, TunError>)
    requires
        req@.len() == 40,
    ensures
        req@[15] != 0 ==> (r matches Err(e) && e matches TunError::InterfaceNameError(v)
            && v@ == name_field(req@)),
        req@[15] == 0 && utf8_decode(kernel_name_bytes(req@)) is Some ==> (r matches Ok(s)
            && Some(s@) == utf8_decode(kernel_name_bytes(req@))),
        req@[15] == 0 && utf8_decode(kernel_name_bytes(req@)) is None ==> (r matches Err(e)
            && e matches TunError::InterfaceNameError(v) && v@ == name_field(req@)),
{
    if req[15] != 0 {
        return Err(TunError::InterfaceNameError(copy_range(req, 0, 16)));
    }
    let end = find_byte(req, 0, 0);
    proof {
        assert(req@.skip(0) =~= req@);
        assert(end <= 15);
        lemma_first_occurrence_is(name_field(req@), 0, end as int);
        assert(kernel_name_bytes(req@) =~= req@.subrange(0, end as int));
    }
    let name = copy_range(req, 0, end);
    match bytes_to_string(name) {
        Some(s) => Ok(s),
        None => Err(TunError::InterfaceNameError(copy_range(req, 0, 16))),
    }
}

/// Copies `s[start..end]` into a fresh vector.
fn copy_range(s: &[u8], start: usize, end: usize) -> (v: Vec<u8>)
    requires
        start <= end <= s@.len(),
    ensures
        v@ == s@.subrange(start as int, end as int),
{
    let mut v: Vec<u8> = Vec::new();
    let mut i = start;
    while i < end
        invariant
            start <= i <= end <= s@.len(),
            v@.len() == i - start,
            forall|j: int| 0 <= j < v@.len() ==> v@[j] == s@[start + j],
        decreases end - i,
    {
        v.push(s[i]);
        i = i + 1;
    }
    proof {
        assert(v@ =~= s@.subrange(start as int, end as int));
    }
    v
}

} // verus!
