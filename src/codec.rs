//! The values carried by transfer frames, and their encoding with bincode.
use vstd::prelude::*;
use crate::error::Error;
use crate::frame::{frame_at, frame_bytes, len_bytes, lemma_frame_round_trip, with_frame, LEN_SIZE, MEMORY_START};
use vstd::utf8::encode_utf8;

verus! {

/// The model of an optional string.
pub open spec fn opt_view(v: Option<String>) -> Option<Seq<char>> {
    match v {
        Some(s) => Some(s@),
        None => None,
    }
}

/// The eight little-endian bytes of `n`, as bincode writes a length.
pub open spec fn u64_le(n: nat) -> Seq<u8> {
    Seq::new(8, |k: int| ((n / pow256(k)) % 256) as u8)
}

/// 256 to the power `k`.
pub open spec fn pow256(k: int) -> nat
    decreases k,
{
    if k <= 0 {
        1
    } else {
        256 * pow256(k - 1)
    }
}

/// What bincode writes for a string: its UTF-8 length as a `u64`, then its UTF-8 bytes.
pub open spec fn bincode_string(s: Seq<char>) -> Seq<u8> {
    u64_le(encode_utf8(s).len()) + encode_utf8(s)
}

/// What `bincode::serialize` makes of an `Option<String>`: a tag byte, 0 for
/// `None` and 1 for `Some`, followed by the string.
pub open spec fn bincode_verdict(v: Option<Seq<char>>) -> Seq<u8> {
    match v {
        None => seq![0u8],
        Some(s) => seq![1u8] + bincode_string(s),
    }
}

/// What `bincode::serialize` makes of an `(u32, String)` pair: the `u32` in
/// four little-endian bytes, followed by the string.
pub open spec fn bincode_plugin(address: u32, name: Seq<char>) -> Seq<u8> {
    len_bytes(address) + bincode_string(name)
}

/// Where `b` is the encoding of a verdict, `r` is that verdict, decoded.
pub open spec fn round_trips_verdict<E>(b: Seq<u8>, r: Result<Option<String>, E>) -> bool {
    forall|v: Option<Seq<char>>| b == #[trigger] bincode_verdict(v) ==> (r matches Ok(x) && opt_view(x) == v)
}

/// Where `b` is the encoding of a pair, `r` is that pair, decoded.
pub open spec fn round_trips_plugin<E>(b: Seq<u8>, r: Result<(u32, String), E>) -> bool {
    forall|a: u32, n: Seq<char>| b == #[trigger] bincode_plugin(a, n) ==> (r matches Ok(p) && p.0 == a && p.1@ == n)
}

/// Relies on `bincode::serialize` for `Option<String>`: with the default
/// options there is no size limit and the output is a `Vec`, so it succeeds.
#[verifier::external_body]
fn serialize_verdict(v: &Option<String>) -> (r: Result<Vec<u8>, Box<bincode::ErrorKind>>)
    ensures
        r is Ok,
        r matches Ok(b) ==> b@ == bincode_verdict(opt_view(*v)),
{
    bincode::serialize(v)
}

/// Relies on `bincode::deserialize` for `Option<String>`: the bytes that
/// `bincode::serialize` made of a value decode to that value.
#[verifier::external_body]
fn deserialize_verdict(b: &[u8]) -> (r: Result<Option<String>, Box<bincode::ErrorKind>>)
    ensures
        round_trips_verdict(b@, r),
{
    bincode::deserialize(b)
}

/// Relies on `bincode::serialize` for an `(u32, String)` pair: with the
/// default options there is no size limit and the output is a `Vec`, so it succeeds.
#[verifier::external_body]
fn serialize_plugin(address: u32, name: &String) -> (r: Result<Vec<u8>, Box<bincode::ErrorKind>>)
    ensures
        r is Ok,
        r matches Ok(b) ==> b@ == bincode_plugin(address, name@),
{
    bincode::serialize(&(address, name))
}

/// Relies on `bincode::deserialize` for an `(u32, String)` pair: the bytes
/// that `bincode::serialize` made of a pair decode to that pair.
#[verifier::external_body]
fn deserialize_plugin(b: &[u8]) -> (r: Result<(u32, String), Box<bincode::ErrorKind>>)
    ensures
        round_trips_plugin(b@, r),
{
    bincode::deserialize(b)
}

/// Plugin metadata: an opaque correlation token that only the guest
/// interprets, and a diagnostic name.
pub struct Plugin {
    pub address: u32,
    pub name: String,
}

/// The payload that carries `v`, empty where there is no verdict, its
/// bincode encoding otherwise.
pub open spec fn verdict_payload(v: Option<Seq<char>>) -> Seq<u8> {
    match v {
        None => Seq::empty(),
        Some(s) => bincode_verdict(Some(s)),
    }
}

/// Encodes a verdict as a frame payload.
pub fn encode_verdict(v: &Option<String>) -> (r: Vec<u8>)
    ensures
        r@ == verdict_payload(opt_view(*v)),
        v is None <==> r@.len() == 0,
{
    match v {
        None => Vec::new(),
        Some(_) => match serialize_verdict(v) {
            Ok(b) => b,
            Err(_) => Vec::new(),
        },
    }
}

/// Decodes a frame payload into a verdict. The empty payload stands for no
/// verdict, and a non-empty encoding of a verdict decodes to that verdict.
pub fn decode_verdict(payload: &[u8]) -> (r: Result<Option<String>, Error>)
    ensures
        payload@.len() == 0 ==> (r matches Ok(None)),
        forall|v: Option<Seq<char>>| payload@ == #[trigger] verdict_payload(v) ==> (r matches Ok(x) && opt_view(x) == v),
        r matches Err(e) ==> e is Bincode,
{
    if payload.len() == 0 {
        return Ok(None);
    }
    let r = deserialize_verdict(payload);
    assert forall|v: Option<Seq<char>>| payload@ == #[trigger] verdict_payload(v) implies (r matches Ok(x) && opt_view(x) == v) by {
        if v is Some {
            assert(payload@ == bincode_verdict(v));
        }
    }
    match r {
        Ok(x) => Ok(x),
        Err(e) => Err(Error::Bincode(e)),
    }
}

/// Encodes plugin metadata as a frame payload; it is never empty.
pub fn encode_plugin(p: &Plugin) -> (r: Vec<u8>)
    ensures
        r@ == bincode_plugin(p.address, p.name@),
        r@.len() > 0,
{
    match serialize_plugin(p.address, &p.name) {
        Ok(b) => b,
        Err(_) => Vec::new(),
    }
}

/// Decodes a frame payload into plugin metadata; the encoding of some
/// metadata decodes to that metadata.
pub fn decode_plugin(payload: &[u8]) -> (r: Result<Plugin, Error>)
    ensures
        forall|a: u32, n: Seq<char>|
            payload@ == #[trigger] bincode_plugin(a, n) ==> (r matches Ok(p) && p.address == a && p.name@ == n),
        r matches Err(e) ==> e is Bincode,
{
    match deserialize_plugin(payload) {
        Ok(pair) => Ok(Plugin { address: pair.0, name: pair.1 }),
        Err(e) => Err(Error::Bincode(e)),
    }
}

/// A verdict written into a mailbox is read back as it was: no verdict as the
/// empty frame, a present one as its encoding, which is never empty.
pub proof fn lemma_verdict_frame_round_trip(mem: Seq<u8>, v: Option<Seq<char>>)
    requires
        verdict_payload(v).len() <= u32::MAX,
        MEMORY_START + LEN_SIZE + verdict_payload(v).len() <= mem.len(),
    ensures
        v is None <==> verdict_payload(v).len() == 0,
        v is None ==> frame_at(with_frame(mem, MEMORY_START as int, frame_bytes(verdict_payload(v))), MEMORY_START as int)
            == Some(None::<Seq<u8>>),
        v is Some ==> frame_at(with_frame(mem, MEMORY_START as int, frame_bytes(verdict_payload(v))), MEMORY_START as int)
            == Some(Some(verdict_payload(v))),
{
    lemma_frame_round_trip(mem, MEMORY_START as int, verdict_payload(v));
}

} // verus!
