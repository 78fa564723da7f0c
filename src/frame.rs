//! Transfer frames: a four-byte little-endian length followed by that many
//! payload bytes, stored in a mailbox at a fixed offset of linear memory.
use vstd::prelude::*;

verus! {

/// Offset of the mailbox, in the host's shared region and in each guest's memory.
pub const MEMORY_START: usize = 1;

/// Width of a frame's length header.
pub const LEN_SIZE: usize = 4;

/// The length that a four-byte header holds (linear memory is little-endian).
pub open spec fn le_u32(b: Seq<u8>) -> u32 {
    (b[0] as u32) | ((b[1] as u32) << 8u32) | ((b[2] as u32) << 16u32) | ((b[3] as u32) << 24u32)
}

/// The four header bytes that hold `n`.
pub open spec fn len_bytes(n: u32) -> Seq<u8> {
    seq![
        (n & 0xffu32) as u8,
        ((n >> 8u32) & 0xffu32) as u8,
        ((n >> 16u32) & 0xffu32) as u8,
        ((n >> 24u32) & 0xffu32) as u8,
    ]
}

/// The bytes of the frame that carries `payload`.
pub open spec fn frame_bytes(payload: Seq<u8>) -> Seq<u8> {
    len_bytes(payload.len() as u32) + payload
}

/// `mem` with `f` laid over it from offset `at` on.
pub open spec fn with_frame(mem: Seq<u8>, at: int, f: Seq<u8>) -> Seq<u8> {
    Seq::new(mem.len(), |j: int| if at <= j < at + f.len() { f[j - at] } else { mem[j] })
}

/// The frame found at `addr` in `mem`: `None` where the header or the payload
/// runs past the end of memory, `Some(None)` for the empty (absent) frame.
pub open spec fn frame_at(mem: Seq<u8>, addr: int) -> Option<Option<Seq<u8>>> {
    if addr < 0 || addr + 4 > mem.len() {
        None
    } else {
        let n = le_u32(mem.subrange(addr, addr + 4)) as int;
        if n == 0 {
            Some(None)
        } else if addr + 4 + n > mem.len() {
            None
        } else {
            Some(Some(mem.subrange(addr + 4, addr + 4 + n)))
        }
    }
}

/// A header decodes to the length it was written from.
pub proof fn lemma_len_bytes_round_trip(n: u32)
    ensures
        len_bytes(n).len() == 4,
        le_u32(len_bytes(n)) == n,
{
    let b = len_bytes(n);
    assert(b[0] == (n & 0xffu32) as u8);
    assert(b[1] == ((n >> 8u32) & 0xffu32) as u8);
    assert(b[2] == ((n >> 16u32) & 0xffu32) as u8);
    assert(b[3] == ((n >> 24u32) & 0xffu32) as u8);
    assert((((n & 0xffu32) as u8) as u32) | (((((n >> 8u32) & 0xffu32) as u8) as u32) << 8u32)
        | (((((n >> 16u32) & 0xffu32) as u8) as u32) << 16u32)
        | (((((n >> 24u32) & 0xffu32) as u8) as u32) << 24u32) == n) by (bit_vector);
}

/// A frame written into memory is read back from the same address: an empty
/// payload as the absent frame, any other payload unchanged.
pub proof fn lemma_frame_round_trip(mem: Seq<u8>, at: int, payload: Seq<u8>)
    requires
        0 <= at,
        payload.len() <= u32::MAX,
        at + 4 + payload.len() <= mem.len(),
    ensures
        frame_at(with_frame(mem, at, frame_bytes(payload)), at) == (if payload.len() == 0 {
            Some(None::<Seq<u8>>)
        } else {
            Some(Some(payload))
        }),
{
    let f = frame_bytes(payload);
    let m = with_frame(mem, at, f);
    lemma_len_bytes_round_trip(payload.len() as u32);
    assert(m.subrange(at, at + 4) =~= len_bytes(payload.len() as u32));
    assert(m.subrange(at + 4, at + 4 + payload.len()) =~= payload);
}

/// The header that holds `n`.
pub fn encode_len(n: u32) -> (r: Vec<u8>)
    ensures
        r@ == len_bytes(n),
{
    let mut r: Vec<u8> = Vec::new();
    r.push((n & 0xff) as u8);
    r.push(((n >> 8) & 0xff) as u8);
    r.push(((n >> 16) & 0xff) as u8);
    r.push(((n >> 24) & 0xff) as u8);
    assert(r@ =~= len_bytes(n));
    r
}

/// The length held by the first four bytes of `b`.
pub fn decode_len(b: &[u8]) -> (r: u32)
    requires
        b@.len() >= 4,
    ensures
        r == le_u32(b@),
{
    (b[0] as u32) | ((b[1] as u32) << 8) | ((b[2] as u32) << 16) | ((b[3] as u32) << 24)
}

/// The frame that carries `payload`.
pub fn frame(payload: &[u8]) -> (r: Vec<u8>)
    requires
        payload@.len() <= u32::MAX,
    ensures
        r@ == frame_bytes(payload@),
{
    let mut r = encode_len(payload.len() as u32);
    let mut i: usize = 0;
    while i < payload.len()
        invariant
            i <= payload@.len(),
            r@ == len_bytes(payload@.len() as u32) + payload@.subrange(0, i as int),
        decreases payload@.len() - i,
    {
        r.push(payload[i]);
        i = i + 1;
        assert(r@ =~= len_bytes(payload@.len() as u32) + payload@.subrange(0, i as int));
    }
    assert(payload@.subrange(0, i as int) =~= payload@);
    r
}

/// Whether a frame carrying `len` payload bytes fits in a memory of `mem_len` bytes.
pub open spec fn fits(mem_len: int, len: int) -> bool {
    MEMORY_START + LEN_SIZE + len <= mem_len && len <= u32::MAX
}

/// Why a frame could not be written or read.
#[derive(Debug, PartialEq, Eq, Structural, Clone, Copy)]
pub enum FrameError {
    /// The frame does not fit in, or runs past the end of, linear memory.
    InvalidOffset,
}

/// Writes the frame that carries `payload` into `memory` at the mailbox offset
/// and returns that offset; memory is left as it was where the frame does not fit.
pub fn write(memory: &mut Vec<u8>, payload: &[u8]) -> (r: Result<u32, FrameError>)
    ensures
        fits(old(memory)@.len() as int, payload@.len() as int) ==> r == Ok::<u32, FrameError>(MEMORY_START as u32)
            && final(memory)@ == with_frame(old(memory)@, MEMORY_START as int, frame_bytes(payload@)),
        !fits(old(memory)@.len() as int, payload@.len() as int) ==> r == Err::<u32, FrameError>(FrameError::InvalidOffset)
            && final(memory)@ == old(memory)@,
{
    if payload.len() > u32::MAX as usize || payload.len() > memory.len() || memory.len()
        - payload.len() < MEMORY_START + LEN_SIZE {
        return Err(FrameError::InvalidOffset);
    }
    let f = frame(payload);
    let ghost m0 = memory@;
    let mut k: usize = 0;
    while k < f.len()
        invariant
            f@ == frame_bytes(payload@),
            MEMORY_START + f@.len() <= m0.len(),
            k <= f@.len(),
            memory@.len() == m0.len(),
            forall|j: int| 0 <= j < memory@.len() ==> #[trigger] memory@[j] == (if MEMORY_START <= j < MEMORY_START + k { f@[j - MEMORY_START] } else { m0[j] }),
        decreases f@.len() - k,
    {
        memory.set(MEMORY_START + k, f[k]);
        k = k + 1;
    }
    assert(memory@ =~= with_frame(m0, MEMORY_START as int, frame_bytes(payload@)));
    Ok(MEMORY_START as u32)
}

/// What a frame gives, from its four header bytes and from the bytes read
/// after them: `None` where the header declares a payload that runs past the
/// end of memory, or where it declares none and nothing was read.
pub open spec fn frame_result(header: Seq<u8>, payload: Option<Seq<u8>>) -> Result<Option<Seq<u8>>, FrameError> {
    if le_u32(header) == 0 {
        Ok(None)
    } else {
        match payload {
            None => Err(FrameError::InvalidOffset),
            Some(p) => Ok(Some(p)),
        }
    }
}

/// The frame carried by a four-byte header and, where the header declares a
/// payload, the declared number of bytes after it (`None` where those run past
/// the end of memory): no payload for a zero header, else the payload or an error.
pub fn frame_from(header: &[u8], payload: Option<Vec<u8>>) -> (r: Result<Option<Vec<u8>>, FrameError>)
    requires
        header@.len() == LEN_SIZE,
        payload matches Some(p) ==> p@.len() == le_u32(header@),
    ensures
        le_u32(header@) == 0 ==> (r matches Ok(None)),
        le_u32(header@) > 0 && payload is None ==> r == Err::<Option<Vec<u8>>, FrameError>(FrameError::InvalidOffset),
        le_u32(header@) > 0 && payload is Some ==> (r matches Ok(Some(q)) && payload matches Some(p) && q@ == p@),
        r matches Ok(Some(q)) ==> q@.len() > 0,
{
    let n = decode_len(header);
    if n == 0 {
        return Ok(None);
    }
    match payload {
        Some(p) => Ok(Some(p)),
        None => Err(FrameError::InvalidOffset),
    }
}

/// Reads the frame at `addr` of a memory image: its payload, or `None` for the
/// absent (empty) frame.
pub fn read_frame(mem: &[u8], addr: usize) -> (r: Result<Option<Vec<u8>>, FrameError>)
    ensures
        match frame_at(mem@, addr as int) {
            None => r == Err::<Option<Vec<u8>>, FrameError>(FrameError::InvalidOffset),
            Some(None) => r matches Ok(None),
            Some(Some(p)) => r matches Ok(Some(v)) && v@ == p,
        },
{
    if addr > mem.len() || mem.len() - addr < LEN_SIZE {
        return Err(FrameError::InvalidOffset);
    }
    let ml = mem.len();
    let mut header: Vec<u8> = Vec::new();
    let mut i: usize = 0;
    while i < LEN_SIZE
        invariant
            ml == mem@.len(),
            addr + LEN_SIZE <= mem@.len(),
            i <= LEN_SIZE,
            header@ == mem@.subrange(addr as int, addr + i),
        decreases LEN_SIZE - i,
    {
        header.push(mem[addr + i]);
        i = i + 1;
        assert(header@ =~= mem@.subrange(addr as int, addr + i));
    }
    let n = decode_len(header.as_slice());
    if n == 0 {
        return Ok(None);
    }
    if mem.len() - addr - LEN_SIZE < n as usize {
        return Err(FrameError::InvalidOffset);
    }
    let start = addr + LEN_SIZE;
    let mut payload: Vec<u8> = Vec::new();
    let mut j: usize = 0;
    while j < n as usize
        invariant
            ml == mem@.len(),
            start + n <= mem@.len(),
            j <= n,
            payload@ == mem@.subrange(start as int, start + j),
        decreases n - j,
    {
        payload.push(mem[start + j]);
        j = j + 1;
        assert(payload@ =~= mem@.subrange(start as int, start + j));
    }
    Ok(Some(payload))
}

} // verus!
