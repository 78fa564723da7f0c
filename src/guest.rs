//! The guest side of the boundary: a module keeps its capability instances in
//! an arena named by integer handles, and answers through its own mailbox.
use vstd::prelude::*;
use vstd::utf8::{decode_utf8, valid_utf8};
use crate::codec::{bincode_plugin, encode_plugin, encode_verdict, opt_view, verdict_payload, Plugin};
use crate::error::Error;
use crate::frame::{fits, frame_bytes, with_frame, FrameError, MEMORY_START};

verus! {

/// Whether `p` occurs in `s`.
pub open spec fn contains_seq(s: Seq<char>, p: Seq<char>) -> bool {
    exists|i: int| 0 <= i && i + p.len() <= s.len() && #[trigger] s.subrange(i, i + p.len()) == p
}

/// Relies on `str::contains` with a `&str` pattern: whether `p` occurs in `s`.
#[verifier::external_body]
fn str_contains(s: &str, p: &str) -> (r: bool)
    ensures
        r == contains_seq(s@, p@),
{
    s.contains(p)
}

/// Relies on `String::from_utf8`: it succeeds exactly on valid UTF-8, with
/// the text those bytes encode.
#[verifier::external_body]
fn utf8_string(b: Vec<u8>) -> (r: Option<String>)
    ensures
        r is Some <==> valid_utf8(b@),
        r matches Some(s) ==> s@ == decode_utf8(b@),
{
    String::from_utf8(b).ok()
}

/// A checking capability: maps input text to an optional verdict.
pub trait Checker {
    /// The verdict on `s`.
    spec fn verdict(&self, s: Seq<char>) -> Option<Seq<char>>;

    fn check(&self, s: &str) -> (r: Option<String>)
        ensures
            opt_view(r) == self.verdict(s@),
    ;
}

/// Finds the word "test".
pub struct TestChecker {}

impl TestChecker {
    pub fn new() -> (r: Self) {
        TestChecker {}
    }
}

impl Checker for TestChecker {
    open spec fn verdict(&self, s: Seq<char>) -> Option<Seq<char>> {
        if contains_seq(s, "test"@) {
            Some("FOUND"@)
        } else {
            None
        }
    }

    fn check(&self, s: &str) -> (r: Option<String>) {
        if str_contains(s, "test") {
            Some("FOUND".to_owned())
        } else {
            None
        }
    }
}

/// A guest module's state: its capability instances, and its own linear memory.
/// The instance named by handle `h` is `checkers[h - 1]`; handle 0 is null.
pub struct Guest<C: Checker> {
    pub checkers: Vec<C>,
    pub memory: Vec<u8>,
}

impl<C: Checker> Guest<C> {
    /// A guest with no instances and `size` bytes of zeroed memory.
    pub fn with_memory(size: usize) -> (r: Self)
        ensures
            r.checkers@.len() == 0,
            r.memory@ == Seq::new(size as nat, |i: int| 0u8),
    {
        let mut memory: Vec<u8> = Vec::new();
        let mut i: usize = 0;
        while i < size
            invariant
                i <= size,
                memory@ == Seq::new(i as nat, |j: int| 0u8),
            decreases size - i,
        {
            memory.push(0u8);
            i = i + 1;
            assert(memory@ =~= Seq::new(i as nat, |j: int| 0u8));
        }
        Guest { checkers: Vec::new(), memory }
    }
}

/// The input text that a guest reads: `len` bytes from `addr` of the region
/// the host shares.
pub open spec fn input_bytes(shared: Seq<u8>, addr: u32, len: u32) -> Seq<u8> {
    shared.subrange(addr as int, addr + len)
}

/// Registers `checker` under the next handle and writes its metadata
/// `{ handle, name }` as a frame into the guest's memory; returns the frame's
/// address. The instance stays in the arena for the guest's whole life. The
/// metadata frame is never empty, so a host never reads it as absent.
pub fn new<C: Checker>(guest: &mut Guest<C>, checker: C, name: String) -> (r: Result<u32, Error>)
    requires
        old(guest).checkers@.len() < u32::MAX,
    ensures
        r matches Ok(a) ==> a == MEMORY_START
            && final(guest).checkers@ == old(guest).checkers@.push(checker)
            && final(guest).memory@ == with_frame(
                old(guest).memory@,
                MEMORY_START as int,
                frame_bytes(bincode_plugin((old(guest).checkers@.len() + 1) as u32, name@)),
            ),
        bincode_plugin((old(guest).checkers@.len() + 1) as u32, name@).len() > 0,
        r is Err ==> final(guest).checkers@ == old(guest).checkers@ && final(guest).memory@ == old(guest).memory@,
        fits(
            old(guest).memory@.len() as int,
            bincode_plugin((old(guest).checkers@.len() + 1) as u32, name@).len() as int,
        ) <==> r == Ok::<u32, Error>(MEMORY_START as u32),
        r matches Err(e) ==> e is InvalidOffset,
{
    let handle = (guest.checkers.len() + 1) as u32;
    let plugin = Plugin { address: handle, name };
    let payload = encode_plugin(&plugin);
    match crate::frame::write(&mut guest.memory, payload.as_slice()) {
        Ok(a) => {
            guest.checkers.push(checker);
            Ok(a)
        },
        Err(FrameError::InvalidOffset) => Err(Error::InvalidOffset),
    }
}

/// Runs the instance named by `checker` on the `len` bytes at `addr` of the
/// shared region, and writes its verdict as a frame into the guest's own
/// memory (the empty frame for no verdict); returns the frame's address.
/// The instance is only borrowed: the arena is the same afterwards.
/// A null or unknown handle, input outside the shared region and text that is
/// not UTF-8 are guest faults: the error returned for each stands for the trap
/// that the exported entry point raises on it, and no frame is written.
pub fn run<C: Checker>(guest: &mut Guest<C>, shared: &[u8], checker: u32, addr: u32, len: u32) -> (r: Result<u32, Error>)
    ensures
        final(guest).checkers@ == old(guest).checkers@,
        r is Err ==> final(guest).memory@ == old(guest).memory@,
        checker == 0 ==> (r matches Err(Error::NullPtr)),
        checker != 0 && checker > old(guest).checkers@.len() ==> (r matches Err(Error::UnknownHandle)),
        checker != 0 && checker <= old(guest).checkers@.len() && addr + len > shared@.len() ==> (r matches Err(Error::InvalidOffset)),
        checker != 0 && checker <= old(guest).checkers@.len() && addr + len <= shared@.len() ==> {
            let input = input_bytes(shared@, addr, len);
            &&& !valid_utf8(input) ==> (r matches Err(Error::Utf8))
            &&& valid_utf8(input) ==> {
                let v = old(guest).checkers@[checker - 1].verdict(decode_utf8(input));
                &&& r is Ok ==> final(guest).memory@ == with_frame(
                    old(guest).memory@,
                    MEMORY_START as int,
                    frame_bytes(verdict_payload(v)),
                )
                &&& fits(old(guest).memory@.len() as int, verdict_payload(v).len() as int)
                    <==> r == Ok::<u32, Error>(MEMORY_START as u32)
                &&& r matches Err(e) ==> e is InvalidOffset
            }
        },
{
    if checker == 0 {
        return Err(Error::NullPtr);
    }
    if checker as usize > guest.checkers.len() {
        return Err(Error::UnknownHandle);
    }
    if addr as usize > shared.len() || shared.len() - (addr as usize) < len as usize {
        return Err(Error::InvalidOffset);
    }
    let start = addr as usize;
    let sl = shared.len();
    let mut bytes: Vec<u8> = Vec::new();
    let mut i: usize = 0;
    while i < len as usize
        invariant
            sl == shared@.len(),
            start + len <= shared@.len(),
            i <= len,
            bytes@ == shared@.subrange(start as int, start + i),
        decreases len - i,
    {
        bytes.push(shared[start + i]);
        i = i + 1;
        assert(bytes@ =~= shared@.subrange(start as int, start + i));
    }
    let text = match utf8_string(bytes) {
        Some(t) => t,
        None => return Err(Error::Utf8),
    };
    let res = guest.checkers[checker as usize - 1].check(text.as_str());
    let payload = encode_verdict(&res);
    match crate::frame::write(&mut guest.memory, payload.as_slice()) {
        Ok(a) => Ok(a),
        Err(FrameError::InvalidOffset) => Err(Error::InvalidOffset),
    }
}

} // verus!
