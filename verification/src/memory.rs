//! Bounds-checked access to guest linear memory.
//!
//! The guest fully controls every offset and length it hands to the bridge,
//! so nothing here may ever reach past the end of the memory image, and a
//! zero-terminated string is scanned byte by byte with no assumed cap.
//! All functions work on a host-side view of the memory contents; the
//! embedding program re-derives that view fresh on every bridge call.

use vstd::prelude::*;

verus! {

use crate::errors::BridgeError;

/// The byte range `[offset, offset + length)` lies inside a memory of
/// `mem_len` bytes.
pub open spec fn range_ok(mem_len: int, offset: int, length: int) -> bool {
    0 <= offset && 0 <= length && offset + length <= mem_len
}

/// Some byte at or after `offset` is a zero terminator.
pub open spec fn has_terminator(mem: Seq<u8>, offset: int) -> bool {
    exists|i: int| offset <= i < mem.len() && mem[i] == 0
}

/// `end` is the first zero byte at or after `offset`.
pub open spec fn terminator_at(mem: Seq<u8>, offset: int, end: int) -> bool {
    &&& offset <= end < mem.len()
    &&& mem[end] == 0
    &&& forall|j: int| offset <= j < end ==> mem[j] != 0
}

/// The position of the first zero byte at or after `offset` (meaningful only
/// when `has_terminator` holds).
pub open spec fn zt_end(mem: Seq<u8>, offset: int) -> int {
    choose|end: int| #![trigger terminator_at(mem, offset, end)] terminator_at(mem, offset, end)
}

/// The bytes of the zero-terminated string at `offset`, terminator excluded.
pub open spec fn zt_bytes(mem: Seq<u8>, offset: int) -> Seq<u8> {
    mem.subrange(offset, zt_end(mem, offset))
}

/// A zero-terminated, validly encoded string starts at `offset`.
pub open spec fn str_readable(mem: Seq<u8>, offset: int) -> bool {
    has_terminator(mem, offset) && vstd::utf8::valid_utf8(zt_bytes(mem, offset))
}

/// The text of the string at `offset` (meaningful only when `str_readable`
/// holds).
pub open spec fn str_value(mem: Seq<u8>, offset: int) -> Seq<char> {
    vstd::utf8::decode_utf8(zt_bytes(mem, offset))
}

/// Which error reading the string at `offset` reports: `OutOfBounds` when
/// the scan finds no terminator, otherwise `InvalidEncoding`.
pub open spec fn str_error(mem: Seq<u8>, offset: int) -> BridgeError {
    if !has_terminator(mem, offset) {
        BridgeError::OutOfBounds
    } else {
        BridgeError::InvalidEncoding
    }
}

/// If any byte at or after `offset` is zero, then some position is the
/// first such byte.
pub proof fn lemma_terminator_exists(mem: Seq<u8>, offset: int)
    requires
        0 <= offset,
        has_terminator(mem, offset),
    ensures
        exists|end: int| #![trigger terminator_at(mem, offset, end)] terminator_at(mem, offset, end),
    decreases mem.len() - offset,
{
    if mem[offset] == 0 {
        assert(terminator_at(mem, offset, offset));
    } else {
        assert(has_terminator(mem, offset + 1)) by {
            let i = choose|i: int| offset <= i < mem.len() && mem[i] == 0;
            assert(offset + 1 <= i < mem.len() && mem[i] == 0);
        }
        lemma_terminator_exists(mem, offset + 1);
        let end = choose|end: int|
            #![trigger terminator_at(mem, offset + 1, end)]
            terminator_at(mem, offset + 1, end);
        assert(terminator_at(mem, offset, end));
    }
}

/// The first zero byte at or after `offset` is unique.
pub proof fn lemma_terminator_unique(mem: Seq<u8>, offset: int, e1: int, e2: int)
    requires
        terminator_at(mem, offset, e1),
        terminator_at(mem, offset, e2),
    ensures
        e1 == e2,
{
}

/// Copies `length` bytes starting at `offset` out of guest memory.
///
/// Fails with `OutOfBounds` exactly when the claimed range reaches past the
/// end of memory; nothing is read past the boundary and no output exists on
/// failure.
pub fn read_bytes(mem: &[u8], offset: u32, length: u32) -> (r: Result<Vec<u8>, BridgeError>)
    ensures
        r is Ok <==> range_ok(mem@.len() as int, offset as int, length as int),
        r matches Ok(b) ==> b@ == mem@.subrange(offset as int, offset as int + length as int),
        r is Err ==> r == Err::<Vec<u8>, BridgeError>(BridgeError::OutOfBounds),
{
    let off = offset as usize;
    let len = length as usize;
    if len > mem.len() || off > mem.len() - len {
        return Err(BridgeError::OutOfBounds);
    }
    let out = copy_range(mem, off, off + len);
    Ok(out)
}

/// Copies the bytes of `mem` in `[from, to)` into host-owned storage.
fn copy_range(mem: &[u8], from: usize, to: usize) -> (out: Vec<u8>)
    requires
        from <= to <= mem@.len(),
    ensures
        out@ == mem@.subrange(from as int, to as int),
{
    let mut out: Vec<u8> = Vec::new();
    let mut i: usize = from;
    while i < to
        invariant
            from <= i <= to <= mem@.len(),
            out@ == mem@.subrange(from as int, i as int),
        decreases to - i,
    {
        out.push(mem[i]);
        assert(out@ =~= mem@.subrange(from as int, (i + 1) as int));
        i = i + 1;
    }
    assert(out@ =~= mem@.subrange(from as int, to as int));
    out
}

/// Writes `data` into guest memory at `offset`.
///
/// Fails with `OutOfBounds` exactly when the target range reaches past the
/// end of memory, and then leaves the memory entirely unchanged: a failed
/// write performs no partial mutation.
pub fn write_bytes(mem: &mut Vec<u8>, offset: u32, data: &[u8]) -> (r: Result<(), BridgeError>)
    ensures
        r is Ok <==> range_ok(old(mem)@.len() as int, offset as int, data@.len() as int),
        r is Ok ==> final(mem)@ == old(mem)@.subrange(0, offset as int) + data@
            + old(mem)@.subrange(offset as int + data@.len() as int, old(mem)@.len() as int),
        r is Err ==> final(mem)@ == old(mem)@ && r == Err::<(), BridgeError>(
            BridgeError::OutOfBounds,
        ),
{
    let off = offset as usize;
    let len = data.len();
    if len > mem.len() || off > mem.len() - len {
        return Err(BridgeError::OutOfBounds);
    }
    let mut i: usize = 0;
    while i < len
        invariant
            off + len <= old(mem)@.len(),
            off + len <= usize::MAX,
            i <= len,
            len == data@.len(),
            mem@.len() == old(mem)@.len(),
            forall|j: int| 0 <= j < off ==> mem@[j] == old(mem)@[j],
            forall|j: int| off <= j < off + i ==> mem@[j] == data@[j - off],
            forall|j: int| off + len <= j < mem@.len() ==> mem@[j] == old(mem)@[j],
        decreases len - i,
    {
        mem[off + i] = data[i];
        i = i + 1;
    }
    assert(mem@ =~= old(mem)@.subrange(0, offset as int) + data@ + old(mem)@.subrange(
        offset as int + data@.len() as int,
        old(mem)@.len() as int,
    ));
    Ok(())
}

/// Scans forward from `offset` for a zero terminator.
///
/// Returns the terminator's position; fails with `OutOfBounds` exactly when
/// the scan runs off the end of memory without finding one.
fn scan_terminator(mem: &[u8], offset: u32) -> (r: Result<usize, BridgeError>)
    ensures
        r is Ok <==> has_terminator(mem@, offset as int),
        r matches Ok(at) ==> terminator_at(mem@, offset as int, at as int) && at == zt_end(
            mem@,
            offset as int,
        ),
        r is Err ==> r == Err::<usize, BridgeError>(BridgeError::OutOfBounds),
{
    let off = offset as usize;
    if off >= mem.len() {
        assert(!has_terminator(mem@, offset as int));
        return Err(BridgeError::OutOfBounds);
    }
    let mut at: usize = off;
    while at < mem.len()
        invariant
            off == offset as usize,
            off <= at <= mem@.len(),
            forall|j: int| off <= j < at ==> mem@[j] != 0,
        decreases mem@.len() - at,
    {
        if mem[at] == 0 {
            proof {
                assert(terminator_at(mem@, offset as int, at as int));
                lemma_terminator_exists(mem@, offset as int);
                let end = zt_end(mem@, offset as int);
                assert(terminator_at(mem@, offset as int, end));
                lemma_terminator_unique(mem@, offset as int, at as int, end);
            }
            return Ok(at);
        }
        at = at + 1;
    }
    assert(!has_terminator(mem@, offset as int)) by {
        if has_terminator(mem@, offset as int) {
            let i = choose|i: int| offset as int <= i < mem@.len() && mem@[i] == 0;
            assert(mem@[i] != 0);
        }
    }
    Err(BridgeError::OutOfBounds)
}

/// Reads the zero-terminated byte string at `offset`, terminator excluded,
/// into host-owned storage.
pub fn read_wasm_string(mem: &[u8], offset: u32) -> (r: Result<Vec<u8>, BridgeError>)
    ensures
        r is Ok <==> has_terminator(mem@, offset as int),
        r matches Ok(b) ==> b@ == zt_bytes(mem@, offset as int),
        r is Err ==> r == Err::<Vec<u8>, BridgeError>(BridgeError::OutOfBounds),
{
    let end = match scan_terminator(mem, offset) {
        Ok(at) => at,
        Err(e) => {
            return Err(e);
        },
    };
    let b = copy_range(mem, offset as usize, end);
    Ok(b)
}

/// Borrows the zero-terminated byte string at `offset`, terminator excluded.
pub fn read_wasm_string_slice(mem: &[u8], offset: u32) -> (r: Result<&[u8], BridgeError>)
    ensures
        r is Ok <==> has_terminator(mem@, offset as int),
        r matches Ok(b) ==> b@ == zt_bytes(mem@, offset as int),
        r is Err ==> r == Err::<&[u8], BridgeError>(BridgeError::OutOfBounds),
{
    let end = match scan_terminator(mem, offset) {
        Ok(at) => at,
        Err(e) => {
            return Err(e);
        },
    };
    let s = &mem[offset as usize..end];
    assert(s@ =~= zt_bytes(mem@, offset as int));
    Ok(s)
}

/// Borrows the zero-terminated byte string at `offset`, terminator included.
pub fn read_wasm_string_slice_include_zero(mem: &[u8], offset: u32) -> (r: Result<
    &[u8],
    BridgeError,
>)
    ensures
        r is Ok <==> has_terminator(mem@, offset as int),
        r matches Ok(b) ==> b@ == zt_bytes(mem@, offset as int).push(0),
        r is Err ==> r == Err::<&[u8], BridgeError>(BridgeError::OutOfBounds),
{
    let end = match scan_terminator(mem, offset) {
        Ok(at) => at,
        Err(e) => {
            return Err(e);
        },
    };
    let n = mem.len();
    assert(end < n);
    let s = &mem[offset as usize..end + 1];
    assert(s@ =~= zt_bytes(mem@, offset as int).push(0));
    Ok(s)
}

/// Relies on `String::from_utf8` from std: it succeeds exactly when the
/// bytes are valid UTF-8, and the returned string's characters are their
/// decoding.
#[verifier::external_body]
fn bytes_to_string(bytes: Vec<u8>) -> (r: Option<String>)
    ensures
        r is Some <==> vstd::utf8::valid_utf8(bytes@),
        r matches Some(s) ==> s@ == vstd::utf8::decode_utf8(bytes@),
{
    String::from_utf8(bytes).ok()
}

/// Reads the zero-terminated string at `offset` as text.
///
/// Fails with `OutOfBounds` when the scan runs off the end of memory before
/// a terminator, and with `InvalidEncoding` when the terminated bytes are
/// not valid UTF-8.
pub fn read_zero_terminated_str(mem: &[u8], offset: u32) -> (r: Result<String, BridgeError>)
    ensures
        r is Ok <==> str_readable(mem@, offset as int),
        r matches Ok(s) ==> s@ == str_value(mem@, offset as int),
        r is Err ==> r == Err::<String, BridgeError>(str_error(mem@, offset as int)),
{
    let bytes = match read_wasm_string(mem, offset) {
        Ok(b) => b,
        Err(e) => {
            return Err(e);
        },
    };
    match bytes_to_string(bytes) {
        Some(s) => Ok(s),
        None => Err(BridgeError::InvalidEncoding),
    }
}

} // verus!
