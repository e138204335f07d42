//! Reading and writing the integers of a kernel-filled byte buffer, and
//! the outcome of the socket-option read that fills it.
use vstd::prelude::*;

verus! {

/// The byte order in which the kernel stores integers in a record.
#[derive(Clone, Copy, Debug, PartialEq, Eq, Structural)]
pub enum Endian {
    Little,
    Big,
}

/// The value of the bytes `lo` to `hi`, least significant first.
pub open spec fn word4(lo: u8, b1: u8, b2: u8, hi: u8) -> int {
    lo + 0x100 * b1 + 0x1_0000 * b2 + 0x100_0000 * hi
}

/// The unsigned 32-bit integer stored at `off` in `s`.
pub open spec fn u32_at(s: Seq<u8>, off: int, e: Endian) -> u32 {
    (match e {
        Endian::Little => word4(s[off], s[off + 1], s[off + 2], s[off + 3]),
        Endian::Big => word4(s[off + 3], s[off + 2], s[off + 1], s[off]),
    }) as u32
}

/// The unsigned 16-bit integer stored at `off` in `s`.
pub open spec fn u16_at(s: Seq<u8>, off: int, e: Endian) -> u16 {
    (match e {
        Endian::Little => s[off] + 0x100 * s[off + 1],
        Endian::Big => s[off + 1] + 0x100 * s[off],
    }) as u16
}

/// Reads the unsigned 32-bit integer at `off`.
pub fn read_u32(buf: &[u8], off: usize, e: Endian) -> (r: u32)
    requires
        off + 4 <= buf@.len(),
    ensures
        r == u32_at(buf@, off as int, e),
{
    let len = buf.len();
    assert(off + 4 <= len);
    let (lo, b1, b2, hi) = match e {
        Endian::Little => (buf[off], buf[off + 1], buf[off + 2], buf[off + 3]),
        Endian::Big => (buf[off + 3], buf[off + 2], buf[off + 1], buf[off]),
    };
    lo as u32 + 0x100 * (b1 as u32) + 0x1_0000 * (b2 as u32) + 0x100_0000 * (hi as u32)
}

/// Reads the unsigned 16-bit integer at `off`.
pub fn read_u16(buf: &[u8], off: usize, e: Endian) -> (r: u16)
    requires
        off + 2 <= buf@.len(),
    ensures
        r == u16_at(buf@, off as int, e),
{
    let len = buf.len();
    assert(off + 2 <= len);
    let (lo, hi) = match e {
        Endian::Little => (buf[off], buf[off + 1]),
        Endian::Big => (buf[off + 1], buf[off]),
    };
    lo as u16 + 0x100 * (hi as u16)
}

/// The four bytes of `v` in the order `e`, least significant first for
/// `Little`.
pub open spec fn bytes_of_u32(v: u32, e: Endian) -> Seq<u8> {
    let lo = (v % 0x100) as u8;
    let b1 = ((v / 0x100) % 0x100) as u8;
    let b2 = ((v / 0x1_0000) % 0x100) as u8;
    let hi = (v / 0x100_0000) as u8;
    match e {
        Endian::Little => seq![lo, b1, b2, hi],
        Endian::Big => seq![hi, b2, b1, lo],
    }
}

/// Reading back the bytes of a value gives the value.
pub proof fn lemma_u32_round_trip(v: u32, e: Endian)
    ensures
        u32_at(bytes_of_u32(v, e), 0, e) == v,
{
    let b = bytes_of_u32(v, e);
    let lo = (v % 0x100) as u8;
    let b1 = ((v / 0x100) % 0x100) as u8;
    let b2 = ((v / 0x1_0000) % 0x100) as u8;
    let hi = (v / 0x100_0000) as u8;
    assert(lo + 0x100 * b1 + 0x1_0000 * b2 + 0x100_0000 * hi == v) by (nonlinear_arith)
        requires
            lo == v % 0x100,
            b1 == (v / 0x100) % 0x100,
            b2 == (v / 0x1_0000) % 0x100,
            hi == v / 0x100_0000,
            v < 0x1_0000_0000,
    ;
}

/// Writes `v` over the four bytes at `off`, leaving the others as they were.
pub fn write_u32(buf: &mut Vec<u8>, off: usize, v: u32, e: Endian)
    requires
        off + 4 <= old(buf)@.len(),
    ensures
        final(buf)@.len() == old(buf)@.len(),
        final(buf)@.subrange(off as int, off + 4) == bytes_of_u32(v, e),
        forall|i: int|
            0 <= i < old(buf)@.len() && !(off <= i < off + 4) ==> final(buf)@[i] == old(buf)@[i],
{
    let len = buf.len();
    assert(off + 4 <= len);
    let lo = (v % 0x100) as u8;
    let b1 = ((v / 0x100) % 0x100) as u8;
    let b2 = ((v / 0x1_0000) % 0x100) as u8;
    let hi = (v / 0x100_0000) as u8;
    let (a, b, c, d) = match e {
        Endian::Little => (lo, b1, b2, hi),
        Endian::Big => (hi, b2, b1, lo),
    };
    buf.set(off, a);
    buf.set(off + 1, b);
    buf.set(off + 2, c);
    buf.set(off + 3, d);
    assert(final(buf)@.subrange(off as int, off + 4) =~= bytes_of_u32(v, e));
}

/// Whether two group lists hold the same entries in the same order.
pub(crate) fn same_groups(a: &[u32], b: &[u32]) -> (r: bool)
    ensures
        r == (a@ == b@),
{
    if a.len() != b.len() {
        return false;
    }
    let mut i: usize = 0;
    while i < a.len()
        invariant
            a@.len() == b@.len(),
            i <= a@.len(),
            a@.subrange(0, i as int) == b@.subrange(0, i as int),
        decreases a@.len() - i,
    {
        if a[i] != b[i] {
            assert(a@.subrange(0, i + 1)[i as int] != b@.subrange(0, i + 1)[i as int]);
            assert(a@ != b@);
            return false;
        }
        assert(a@.subrange(0, i + 1) =~= a@.subrange(0, i as int).push(a[i as int]));
        assert(b@.subrange(0, i + 1) =~= b@.subrange(0, i as int).push(b[i as int]));
        i += 1;
    }
    assert(a@ =~= a@.subrange(0, a@.len() as int));
    assert(b@ =~= b@.subrange(0, b@.len() as int));
    true
}

/// Copies a group list entry by entry.
pub(crate) fn copy_groups(groups: &[u32]) -> (r: Vec<u32>)
    ensures
        r@ == groups@,
{
    let mut out: Vec<u32> = Vec::new();
    let mut i: usize = 0;
    while i < groups.len()
        invariant
            i <= groups@.len(),
            out@ == groups@.subrange(0, i as int),
        decreases groups@.len() - i,
    {
        out.push(groups[i]);
        i += 1;
        assert(out@ =~= groups@.subrange(0, i as int));
    }
    assert(out@ =~= groups@);
    out
}

/// The outcome of a socket-option read, from what the call returned, the
/// length it reported and the OS error code it left: a negative return is
/// that error, anything else the count of bytes written.
pub fn getsockopt_result(ret: i32, len: u32, errno: i32) -> (r: Result<usize, i32>)
    ensures
        ret < 0 ==> r == Err::<usize, i32>(errno),
        ret >= 0 ==> r == Ok::<usize, i32>(len as usize),
{
    if ret < 0 {
        Err(errno)
    } else {
        Ok(len as usize)
    }
}

/// The last FreeBSD release date (`kern.osreldate`) whose extended
/// credential leaves the pid slot unfilled.
pub const LAST_OSRELDATE_WITHOUT_CR_PID: i32 = 1202000;

/// Whether a FreeBSD kernel of release date `osreldate` fills the pid slot
/// of the extended credential; where it does not, a zero slot means that
/// the pid is unsupported rather than unknown.
pub fn has_cr_pid(osreldate: i32) -> (r: bool)
    ensures
        r == (osreldate > LAST_OSRELDATE_WITHOUT_CR_PID),
{
    osreldate > LAST_OSRELDATE_WITHOUT_CR_PID
}

} // verus!
