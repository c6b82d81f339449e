//! Buffer exchange with a plugin's linear memory: bounds-checked reads and
//! writes, and NUL-terminated strings, over the bytes of the memory.

use vstd::prelude::*;
use vstd::utf8::{decode_utf8, valid_utf8};

verus! {

/// An access outside the plugin's linear memory.
#[derive(Debug, Clone, Copy, PartialEq, Eq, Structural)]
pub enum MemoryError {
    OutOfBounds,
}

/// Whether `n` bytes starting at `offset` lie inside a memory of `len` bytes.
pub open spec fn in_bounds(len: int, offset: int, n: int) -> bool {
    0 <= offset && 0 <= n && offset + n <= len
}

/// The memory after writing `data` at `offset`, or `None` when the write
/// would leave the memory.
pub open spec fn write_spec(mem: Seq<u8>, offset: int, data: Seq<u8>) -> Option<Seq<u8>> {
    if in_bounds(mem.len() as int, offset, data.len() as int) {
        Some(mem.subrange(0, offset) + data + mem.subrange(offset + data.len(), mem.len() as int))
    } else {
        None
    }
}

/// The NUL-terminated byte string that starts at `p` (without its NUL), or
/// `None` when the memory ends before a NUL.
pub open spec fn c_str_from(mem: Seq<u8>, p: int) -> Option<Seq<u8>>
    decreases mem.len() - p,
{
    if p < 0 || p >= mem.len() {
        None
    } else if mem[p] == 0 {
        Some(Seq::empty())
    } else {
        match c_str_from(mem, p + 1) {
            Some(rest) => Some(seq![mem[p]] + rest),
            None => None,
        }
    }
}

/// Reading a string at a plugin pointer: a negative pointer means "no
/// string"; otherwise the NUL-terminated string there (`None`: out of bounds).
pub open spec fn c_str_read(mem: Seq<u8>, ptr: int) -> Option<Seq<u8>> {
    if ptr < 0 {
        Some(Seq::empty())
    } else {
        c_str_from(mem, ptr)
    }
}

/// Writing `text` and then a NUL at `ptr`: the resulting memory and whether
/// both writes succeeded. A failed second write leaves the text written.
pub open spec fn c_str_write(mem: Seq<u8>, ptr: int, text: Seq<u8>) -> (Seq<u8>, bool) {
    match write_spec(mem, ptr, text) {
        None => (mem, false),
        Some(m1) => match write_spec(m1, ptr + text.len(), seq![0u8]) {
            None => (m1, false),
            Some(m2) => (m2, true),
        },
    }
}

/// Reading a payload at a plugin pointer: a negative pointer or a
/// non-positive length reads nothing; otherwise `len` bytes at `ptr`.
pub open spec fn payload_read(mem: Seq<u8>, ptr: int, len: int) -> Option<Seq<u8>> {
    if ptr < 0 || len <= 0 {
        Some(Seq::empty())
    } else if in_bounds(mem.len() as int, ptr, len) {
        Some(mem.subrange(ptr, ptr + len))
    } else {
        None
    }
}

/// Reads `n` bytes at plugin pointer `ptr` (a negative pointer is out of
/// bounds, as its unsigned reading lies beyond any linear memory).
pub fn read_at(mem: &[u8], ptr: i32, n: usize) -> (r: Result<Vec<u8>, MemoryError>)
    ensures
        match r {
            Ok(v) => in_bounds(mem@.len() as int, ptr as int, n as int) && v@ == mem@.subrange(
                ptr as int,
                ptr + n,
            ),
            Err(_) => !in_bounds(mem@.len() as int, ptr as int, n as int),
        },
{
    if ptr < 0 {
        return Err(MemoryError::OutOfBounds);
    }
    let offset = ptr as usize;
    if offset > mem.len() || n > mem.len() - offset {
        return Err(MemoryError::OutOfBounds);
    }
    let mut v: Vec<u8> = Vec::new();
    let mut k: usize = 0;
    while k < n
        invariant
            offset + n <= mem.len(),
            offset == ptr,
            k <= n,
            v@ == mem@.subrange(offset as int, offset + k),
        decreases n - k,
    {
        v.push(mem[offset + k]);
        assert(mem@.subrange(offset as int, offset + k + 1) =~= mem@.subrange(
            offset as int,
            offset + k,
        ).push(mem@[offset + k]));
        k += 1;
    }
    Ok(v)
}

/// Writes `data` at byte offset `offset`; out of bounds leaves the memory
/// unchanged.
pub fn write_at_offset(mem: &mut [u8], offset: usize, data: &[u8]) -> (r: Result<(), MemoryError>)
    ensures
        match write_spec(old(mem)@, offset as int, data@) {
            Some(m) => r is Ok && final(mem)@ == m,
            None => r is Err && final(mem)@ == old(mem)@,
        },
{
    let n = data.len();
    if offset > mem.len() || n > mem.len() - offset {
        return Err(MemoryError::OutOfBounds);
    }
    let mut k: usize = 0;
    while k < n
        invariant
            offset + n <= mem.len(),
            n == data@.len(),
            k <= n,
            mem@.len() == old(mem)@.len(),
            forall|j: int| 0 <= j < offset ==> mem@[j] == old(mem)@[j],
            forall|j: int| offset + k <= j < mem@.len() ==> mem@[j] == old(mem)@[j],
            forall|j: int| 0 <= j < k ==> mem@[offset + j] == data@[j],
        decreases n - k,
    {
        mem[offset + k] = data[k];
        k += 1;
    }
    assert(mem@ =~= old(mem)@.subrange(0, offset as int) + data@ + old(mem)@.subrange(
        offset + n,
        old(mem)@.len() as int,
    ));
    Ok(())
}

/// Writes `data` at plugin pointer `ptr`; out of bounds (a negative pointer
/// among them) leaves the memory unchanged.
pub fn write_at(mem: &mut [u8], ptr: i32, data: &[u8]) -> (r: Result<(), MemoryError>)
    ensures
        match write_spec(old(mem)@, ptr as int, data@) {
            Some(m) => r is Ok && final(mem)@ == m,
            None => r is Err && final(mem)@ == old(mem)@,
        },
{
    if ptr < 0 {
        return Err(MemoryError::OutOfBounds);
    }
    write_at_offset(mem, ptr as usize, data)
}

/// Reads the NUL-terminated string at plugin pointer `ptr`, without its NUL;
/// a negative pointer reads the empty string.
pub fn read_c_str(mem: &[u8], ptr: i32) -> (r: Result<Vec<u8>, MemoryError>)
    ensures
        match c_str_read(mem@, ptr as int) {
            Some(s) => r matches Ok(v) && v@ == s,
            None => r is Err,
        },
{
    if ptr < 0 {
        return Ok(Vec::new());
    }
    let start = ptr as usize;
    let len = mem.len();
    if start >= len {
        return Err(MemoryError::OutOfBounds);
    }
    let mut bytes: Vec<u8> = Vec::new();
    let mut offset = start;
    while offset < len
        invariant
            len == mem@.len(),
            start == ptr,
            start <= offset,
            bytes@ == mem@.subrange(start as int, offset as int),
            forall|j: int| start <= j < offset ==> mem@[j] != 0,
            c_str_from(mem@, start as int) == match c_str_from(mem@, offset as int) {
                Some(rest) => Some(bytes@ + rest),
                None => None,
            },
        decreases len - offset,
    {
        let b = mem[offset];
        if b == 0 {
            assert(bytes@ + Seq::<u8>::empty() =~= bytes@);
            return Ok(bytes);
        }
        proof {
            let next = c_str_from(mem@, offset + 1);
            assert(mem@.subrange(start as int, offset + 1) =~= bytes@.push(b));
            match next {
                Some(rest) => {
                    assert(bytes@ + (seq![b] + rest) =~= bytes@.push(b) + rest);
                },
                None => {},
            }
        }
        bytes.push(b);
        offset += 1;
    }
    Err(MemoryError::OutOfBounds)
}

/// Writes `text` followed by a NUL at plugin pointer `ptr`.
pub fn write_c_str(mem: &mut [u8], ptr: i32, text: &[u8]) -> (r: Result<(), MemoryError>)
    ensures
        final(mem)@ == c_str_write(old(mem)@, ptr as int, text@).0,
        r is Ok <==> c_str_write(old(mem)@, ptr as int, text@).1,
{
    let total = mem.len();
    match write_at(mem, ptr, text) {
        Err(e) => {
            return Err(e);
        },
        Ok(()) => {},
    }
    assert(in_bounds(total as int, ptr as int, text@.len() as int));
    let end = ptr as usize + text.len();
    let nul: [u8; 1] = [0u8];
    assert(nul@ =~= seq![0u8]);
    write_at_offset(mem, end, &nul)
}

/// Reads a payload of `len` bytes at plugin pointer `ptr`; a negative pointer
/// or a non-positive length reads nothing.
pub fn read_payload(mem: &[u8], ptr: i32, len: i32) -> (r: Result<Vec<u8>, MemoryError>)
    ensures
        match payload_read(mem@, ptr as int, len as int) {
            Some(s) => r matches Ok(v) && v@ == s,
            None => r is Err,
        },
{
    if ptr < 0 || len <= 0 {
        return Ok(Vec::new());
    }
    read_at(mem, ptr, len as usize)
}

/// A string written with [`write_c_str`] that holds no NUL byte reads back,
/// with [`read_c_str`], as the same bytes.
pub proof fn lemma_c_str_roundtrip(mem: Seq<u8>, ptr: int, text: Seq<u8>)
    requires
        ptr >= 0,
        forall|i: int| 0 <= i < text.len() ==> text[i] != 0,
        c_str_write(mem, ptr, text).1,
    ensures
        c_str_read(c_str_write(mem, ptr, text).0, ptr) == Some(text),
{
    let n = text.len() as int;
    let m1 = write_spec(mem, ptr, text)->0;
    let m = c_str_write(mem, ptr, text).0;
    assert(m1.len() == mem.len());
    assert(m == write_spec(m1, ptr + n, seq![0u8])->0);
    assert(m.len() == mem.len());
    assert forall|i: int| 0 <= i < n implies m[ptr + i] == text[i] && text[i] != 0 by {
        assert(m1[ptr + i] == text[i]);
    }
    assert(m[ptr + n] == 0);
    lemma_c_str_suffix(m, ptr, text, 0);
    assert(text.skip(0) =~= text);
}

/// Bytes written with [`write_at`] read back, with [`read_at`] at the same
/// pointer, as the same bytes, and the write leaves every other byte alone.
pub proof fn lemma_write_then_read(mem: Seq<u8>, ptr: int, data: Seq<u8>)
    requires
        write_spec(mem, ptr, data) is Some,
    ensures
        ({
            let m = write_spec(mem, ptr, data)->0;
            &&& m.len() == mem.len()
            &&& in_bounds(m.len() as int, ptr, data.len() as int)
            &&& m.subrange(ptr, ptr + data.len()) == data
            &&& forall|j: int|
                0 <= j < m.len() && !(ptr <= j < ptr + data.len()) ==> m[j] == mem[j]
        }),
{
    let m = write_spec(mem, ptr, data)->0;
    assert(m.subrange(ptr, ptr + data.len()) =~= data);
}

proof fn lemma_c_str_suffix(m: Seq<u8>, ptr: int, text: Seq<u8>, k: int)
    requires
        ptr >= 0,
        0 <= k <= text.len(),
        ptr + text.len() < m.len(),
        forall|i: int| 0 <= i < text.len() ==> m[ptr + i] == text[i] && text[i] != 0,
        m[ptr + text.len()] == 0,
    ensures
        c_str_from(m, ptr + k) == Some(text.skip(k)),
    decreases text.len() - k,
{
    if k == text.len() {
        assert(text.skip(k) =~= Seq::<u8>::empty());
    } else {
        lemma_c_str_suffix(m, ptr, text, k + 1);
        assert(seq![text[k]] + text.skip(k + 1) =~= text.skip(k));
    }
}

/// What `String::from_utf8_lossy` makes of `bytes`.
pub uninterp spec fn utf8_lossy(bytes: Seq<u8>) -> Seq<char>;

/// Decodes `bytes` with `String::from_utf8_lossy`. The contract says that the
/// result is the named result [`utf8_lossy`] of the bytes and, as the std
/// documentation states, that valid UTF-8 is decoded unchanged; how invalid
/// sequences are replaced is not restated.
#[verifier::external_body]
fn lossy_utf8(bytes: &[u8]) -> (s: String)
    ensures
        s@ == utf8_lossy(bytes@),
        valid_utf8(bytes@) ==> s@ == decode_utf8(bytes@),
{
    String::from_utf8_lossy(bytes).into_owned()
}

/// Reads the NUL-terminated string at plugin pointer `ptr` and decodes it as
/// UTF-8, replacing invalid sequences.
pub fn read_c_string(mem: &[u8], ptr: i32) -> (r: Result<String, MemoryError>)
    ensures
        match c_str_read(mem@, ptr as int) {
            Some(b) => r matches Ok(s) && s@ == utf8_lossy(b) && (valid_utf8(b) ==> s@
                == decode_utf8(b)),
            None => r is Err,
        },
{
    let bytes = read_c_str(mem, ptr)?;
    Ok(lossy_utf8(bytes.as_slice()))
}

} // verus!
