//! Packing values into bytes and reading them back: fixed widths, integers
//! with the low byte first.

use vstd::prelude::*;
use crate::address::{Address, address_of, lemma_address_of};
use crate::error::SimpleDexError;

verus! {

/// The 16-bit number whose bytes, low byte first, are the first two of `b`.
pub open spec fn u16_from_le(b: Seq<u8>) -> u16 {
    (b[0] as nat + 0x100 * b[1] as nat) as u16
}

/// The two bytes of a 16-bit number, low byte first.
pub open spec fn u16_to_le(v: u16) -> Seq<u8> {
    seq![(v % 0x100) as u8, (v / 0x100) as u8]
}

/// The 64-bit number whose bytes, low byte first, are the first eight of `b`.
pub open spec fn u64_from_le(b: Seq<u8>) -> u64 {
    (b[0] as nat
        + 0x100 * b[1] as nat
        + 0x1_0000 * b[2] as nat
        + 0x100_0000 * b[3] as nat
        + 0x1_0000_0000 * b[4] as nat
        + 0x100_0000_0000 * b[5] as nat
        + 0x1_0000_0000_0000 * b[6] as nat
        + 0x100_0000_0000_0000 * b[7] as nat) as u64
}

/// The eight bytes of a 64-bit number, low byte first.
pub open spec fn u64_to_le(v: u64) -> Seq<u8> {
    seq![
        (v % 0x100) as u8,
        (v / 0x100 % 0x100) as u8,
        (v / 0x1_0000 % 0x100) as u8,
        (v / 0x100_0000 % 0x100) as u8,
        (v / 0x1_0000_0000 % 0x100) as u8,
        (v / 0x100_0000_0000 % 0x100) as u8,
        (v / 0x1_0000_0000_0000 % 0x100) as u8,
        (v / 0x100_0000_0000_0000) as u8,
    ]
}

/// A 16-bit number is read back from its bytes.
pub proof fn lemma_u16_le_round_trip(v: u16)
    ensures
        u16_to_le(v).len() == 2,
        u16_from_le(u16_to_le(v)) == v,
{
}

/// Two bytes are written back from the number they give.
pub proof fn lemma_u16_le_bytes_round_trip(b: Seq<u8>)
    requires
        b.len() == 2,
    ensures
        u16_to_le(u16_from_le(b)) == b,
{
    assert(u16_to_le(u16_from_le(b)) =~= b);
}

/// A 64-bit number is read back from its bytes.
pub proof fn lemma_u64_le_round_trip(v: u64)
    ensures
        u64_to_le(v).len() == 8,
        u64_from_le(u64_to_le(v)) == v,
{
    assert(v % 0x100
        + 0x100 * (v / 0x100 % 0x100)
        + 0x1_0000 * (v / 0x1_0000 % 0x100)
        + 0x100_0000 * (v / 0x100_0000 % 0x100)
        + 0x1_0000_0000 * (v / 0x1_0000_0000 % 0x100)
        + 0x100_0000_0000 * (v / 0x100_0000_0000 % 0x100)
        + 0x1_0000_0000_0000 * (v / 0x1_0000_0000_0000 % 0x100)
        + 0x100_0000_0000_0000 * (v / 0x100_0000_0000_0000) == v) by (bit_vector);
    assert(v / 0x100_0000_0000_0000 < 0x100) by (bit_vector);
}

/// Eight bytes are written back from the number they give.
pub proof fn lemma_u64_le_bytes_round_trip(b: Seq<u8>)
    requires
        b.len() == 8,
    ensures
        u64_to_le(u64_from_le(b)) == b,
{
    let (b0, b1, b2, b3, b4, b5, b6, b7) = (b[0], b[1], b[2], b[3], b[4], b[5], b[6], b[7]);
    let v = u64_from_le(b);
    assert({
        &&& v % 0x100 == b0
        &&& v / 0x100 % 0x100 == b1
        &&& v / 0x1_0000 % 0x100 == b2
        &&& v / 0x100_0000 % 0x100 == b3
        &&& v / 0x1_0000_0000 % 0x100 == b4
        &&& v / 0x100_0000_0000 % 0x100 == b5
        &&& v / 0x1_0000_0000_0000 % 0x100 == b6
        &&& v / 0x100_0000_0000_0000 == b7
    }) by (bit_vector)
        requires
            v == b0 as u64
                + 0x100 * (b1 as u64)
                + 0x1_0000 * (b2 as u64)
                + 0x100_0000 * (b3 as u64)
                + 0x1_0000_0000 * (b4 as u64)
                + 0x100_0000_0000 * (b5 as u64)
                + 0x1_0000_0000_0000 * (b6 as u64)
                + 0x100_0000_0000_0000 * (b7 as u64),
    ;
    assert(u64_to_le(v) =~= b);
}

/// A value that can be read from the front of a run of bytes.
pub trait DeserializePacked: Sized {
    /// What reading from `bytes` gives, and how many of the bytes it takes.
    spec fn parse(bytes: Seq<u8>) -> (Result<Self, SimpleDexError>, nat);

    /// Reads a value from the front of `buf` and moves `buf` past what was read.
    fn read_bytes<'a>(buf: &mut &'a [u8]) -> (r: Result<Self, SimpleDexError>)
        ensures
            r == Self::parse(old(buf)@).0,
            final(buf)@ == old(buf)@.skip(Self::parse(old(buf)@).1 as int),
    ;
}

/// What reading `width` bytes from `bytes` takes: that many where there are
/// that many, else all there are.
pub open spec fn taken(bytes: Seq<u8>, width: nat) -> nat {
    if bytes.len() >= width {
        width
    } else {
        bytes.len()
    }
}

/// Reads `S` bytes from the front of `buf`. Where `buf` holds fewer, it
/// fails with `PackunError` and `buf` is left empty.
pub fn try_read<'a, const S: usize>(buf: &mut &'a [u8]) -> (r: Result<[u8; S], SimpleDexError>)
    ensures
        old(buf)@.len() >= S ==> r is Ok && r->Ok_0@ == old(buf)@.take(S as int),
        old(buf)@.len() < S ==> r == Err::<[u8; S], SimpleDexError>(SimpleDexError::PackunError),
        final(buf)@ == old(buf)@.skip(taken(old(buf)@, S as nat) as int),
{
    let src: &'a [u8] = *buf;
    let available = src.len();
    if available < S {
        let (_, rest) = src.split_at(available);
        *buf = rest;
        return Err(SimpleDexError::PackunError);
    }
    let mut into: [u8; S] = vstd::array::array_fill_for_copy_types(0u8);
    let mut i: usize = 0;
    while i < S
        invariant
            i <= S,
            S <= src@.len(),
            forall|j: int| 0 <= j < i ==> into@[j] == src@[j],
        decreases S - i,
    {
        into[i] = src[i];
        i += 1;
    }
    let (_, rest) = src.split_at(S);
    *buf = rest;
    assert(into@ =~= src@.take(S as int));
    Ok(into)
}

impl DeserializePacked for u8 {
    open spec fn parse(bytes: Seq<u8>) -> (Result<u8, SimpleDexError>, nat) {
        if bytes.len() >= 1 {
            (Ok(bytes[0]), 1)
        } else {
            (Err(SimpleDexError::PackunError), bytes.len())
        }
    }

    fn read_bytes<'a>(buf: &mut &'a [u8]) -> (r: Result<u8, SimpleDexError>) {
        let bytes = try_read::<1>(buf)?;
        Ok(bytes[0])
    }
}

impl DeserializePacked for u16 {
    open spec fn parse(bytes: Seq<u8>) -> (Result<u16, SimpleDexError>, nat) {
        if bytes.len() >= 2 {
            (Ok(u16_from_le(bytes)), 2)
        } else {
            (Err(SimpleDexError::PackunError), bytes.len())
        }
    }

    fn read_bytes<'a>(buf: &mut &'a [u8]) -> (r: Result<u16, SimpleDexError>) {
        let bytes = try_read::<2>(buf)?;
        Ok(bytes[0] as u16 + 0x100 * (bytes[1] as u16))
    }
}

impl DeserializePacked for u64 {
    open spec fn parse(bytes: Seq<u8>) -> (Result<u64, SimpleDexError>, nat) {
        if bytes.len() >= 8 {
            (Ok(u64_from_le(bytes)), 8)
        } else {
            (Err(SimpleDexError::PackunError), bytes.len())
        }
    }

    fn read_bytes<'a>(buf: &mut &'a [u8]) -> (r: Result<u64, SimpleDexError>) {
        let bytes = try_read::<8>(buf)?;
        Ok(
            bytes[0] as u64
                + 0x100 * (bytes[1] as u64)
                + 0x1_0000 * (bytes[2] as u64)
                + 0x100_0000 * (bytes[3] as u64)
                + 0x1_0000_0000 * (bytes[4] as u64)
                + 0x100_0000_0000 * (bytes[5] as u64)
                + 0x1_0000_0000_0000 * (bytes[6] as u64)
                + 0x100_0000_0000_0000 * (bytes[7] as u64),
        )
    }
}

impl DeserializePacked for Address {
    open spec fn parse(bytes: Seq<u8>) -> (Result<Address, SimpleDexError>, nat) {
        if bytes.len() >= 32 {
            (Ok(address_of(bytes.take(32))), 32)
        } else {
            (Err(SimpleDexError::PackunError), bytes.len())
        }
    }

    fn read_bytes<'a>(buf: &mut &'a [u8]) -> (r: Result<Address, SimpleDexError>) {
        let bytes = try_read::<32>(buf)?;
        let a = Address::new_from_array(bytes);
        proof {
            lemma_address_of(a);
        }
        Ok(a)
    }
}

/// A run of bytes that is written over from a position onwards. It never
/// grows: what does not fit is not written.
pub struct Cursor {
    buf: Vec<u8>,
    pos: usize,
}

/// What a [`Cursor`] stands for: its bytes, and how many of them are written.
pub struct CursorView {
    pub bytes: Seq<u8>,
    pub pos: nat,
}

impl CursorView {
    /// The number of bytes that can still be written.
    pub open spec fn room(self) -> nat {
        if self.pos <= self.bytes.len() {
            (self.bytes.len() - self.pos) as nat
        } else {
            0
        }
    }

    /// The cursor after `src` was written to it: as much of `src` as there
    /// was room for stands where the position was, and the position is
    /// behind it.
    pub open spec fn written(self, src: Seq<u8>) -> CursorView {
        let n = if src.len() <= self.room() {
            src.len()
        } else {
            self.room()
        };
        if n == 0 {
            self
        } else {
            CursorView {
                bytes: self.bytes.take(self.pos as int) + src.take(n as int) + self.bytes.skip(
                    (self.pos + n) as int,
                ),
                pos: self.pos + n,
            }
        }
    }
}

impl View for Cursor {
    type V = CursorView;

    closed spec fn view(&self) -> CursorView {
        CursorView { bytes: self.buf@, pos: self.pos as nat }
    }
}

impl Cursor {
    #[verifier::type_invariant]
    spec fn position_within(self) -> bool {
        self.pos <= self.buf.len()
    }

    /// A cursor at the start of `buf`.
    pub fn new(buf: Vec<u8>) -> (c: Cursor)
        ensures
            c@ == (CursorView { bytes: buf@, pos: 0 }),
    {
        Cursor { buf, pos: 0 }
    }

    /// A cursor at the start of `len` zero bytes.
    pub fn zeroed(len: usize) -> (c: Cursor)
        ensures
            c@ == (CursorView { bytes: Seq::new(len as nat, |i: int| 0u8), pos: 0 }),
    {
        let mut buf: Vec<u8> = Vec::new();
        let mut i: usize = 0;
        while i < len
            invariant
                i <= len,
                buf@ == Seq::new(i as nat, |j: int| 0u8),
            decreases len - i,
        {
            buf.push(0u8);
            assert(buf@ =~= Seq::new((i + 1) as nat, |j: int| 0u8));
            i += 1;
        }
        Cursor { buf, pos: 0 }
    }

    /// The number of bytes written.
    pub fn position(&self) -> (pos: usize)
        ensures
            pos == self@.pos,
            pos <= self@.bytes.len(),
    {
        proof {
            use_type_invariant(self);
        }
        self.pos
    }

    /// The bytes, written or not.
    pub fn into_inner(self) -> (buf: Vec<u8>)
        ensures
            buf@ == self@.bytes,
    {
        self.buf
    }
}

/// Writing two runs of bytes one after the other is writing them joined,
/// whether or not they fit.
pub proof fn lemma_written_joined(c: CursorView, first: Seq<u8>, second: Seq<u8>)
    ensures
        c.written(first).written(second) == c.written(first + second),
        first.len() >= c.room() ==> c.written(first) == c.written(first + second),
        c.written(first).room() == if first.len() <= c.room() {
            c.room() - first.len()
        } else {
            0
        },
        c.written(first).bytes.len() == c.bytes.len(),
{
    let one = c.written(first);
    let both = c.written(first + second);
    if c.room() > 0 {
        assert(one.written(second).bytes =~= both.bytes);
        if first.len() >= c.room() {
            assert(one.bytes =~= both.bytes);
        }
    }
}

/// A value that can be written as a run of bytes.
pub trait SerializePacked {
    /// The bytes that stand for the value.
    spec fn packed(&self) -> Seq<u8>;

    /// Writes the value at the cursor. Where it does not fit, the part that
    /// fits is written and the result is `PackunError`.
    fn write_bytes(&self, buf: &mut Cursor) -> (r: Result<(), SimpleDexError>)
        ensures
            final(buf)@ == old(buf)@.written(self.packed()),
            self.packed().len() <= old(buf)@.room() ==> r is Ok,
            self.packed().len() > old(buf)@.room() ==> r == Err::<(), SimpleDexError>(
                SimpleDexError::PackunError,
            ),
    ;
}

/// Writes `src` at the cursor. Where it does not fit, the part that fits is
/// written and the result is `PackunError`.
pub fn try_write(src: &[u8], buf: &mut Cursor) -> (r: Result<(), SimpleDexError>)
    ensures
        final(buf)@ == old(buf)@.written(src@),
        src@.len() <= old(buf)@.room() ==> r is Ok,
        src@.len() > old(buf)@.room() ==> r == Err::<(), SimpleDexError>(
            SimpleDexError::PackunError,
        ),
{
    proof {
        use_type_invariant(&*buf);
    }
    let room = buf.buf.len() - buf.pos;
    let n = if src.len() <= room {
        src.len()
    } else {
        room
    };
    let start = buf.pos;
    let ghost before = buf.buf@;
    let mut i: usize = 0;
    while i < n
        invariant
            i <= n,
            n <= src@.len(),
            start + n <= buf.buf.len(),
            buf.pos == start,
            buf.buf@.len() == before.len(),
            forall|j: int| 0 <= j < start ==> buf.buf@[j] == before[j],
            forall|j: int| 0 <= j < i ==> buf.buf@[start + j] == src@[j],
            forall|j: int| start + i <= j < before.len() ==> buf.buf@[j] == before[j],
        decreases n - i,
    {
        buf.buf[start + i] = src[i];
        i += 1;
    }
    buf.pos = start + n;
    assert(buf.buf@ =~= before.take(start as int) + src@.take(n as int) + before.skip(start + n));
    assert(n == 0 ==> buf.buf@ =~= before);
    if n != src.len() {
        Err(SimpleDexError::PackunError)
    } else {
        Ok(())
    }
}

impl SerializePacked for u8 {
    open spec fn packed(&self) -> Seq<u8> {
        seq![*self]
    }

    fn write_bytes(&self, buf: &mut Cursor) -> (r: Result<(), SimpleDexError>) {
        let bytes: [u8; 1] = [*self];
        assert(bytes@ =~= self.packed());
        try_write(bytes.as_slice(), buf)
    }
}

impl SerializePacked for u16 {
    open spec fn packed(&self) -> Seq<u8> {
        u16_to_le(*self)
    }

    fn write_bytes(&self, buf: &mut Cursor) -> (r: Result<(), SimpleDexError>) {
        let v = *self;
        let bytes: [u8; 2] = [(v % 0x100) as u8, (v / 0x100) as u8];
        assert(bytes@ =~= self.packed());
        try_write(bytes.as_slice(), buf)
    }
}

impl SerializePacked for u64 {
    open spec fn packed(&self) -> Seq<u8> {
        u64_to_le(*self)
    }

    fn write_bytes(&self, buf: &mut Cursor) -> (r: Result<(), SimpleDexError>) {
        let v = *self;
        assert(v / 0x100_0000_0000_0000 < 0x100) by (bit_vector);
        let bytes: [u8; 8] = [
            (v % 0x100) as u8,
            (v / 0x100 % 0x100) as u8,
            (v / 0x1_0000 % 0x100) as u8,
            (v / 0x100_0000 % 0x100) as u8,
            (v / 0x1_0000_0000 % 0x100) as u8,
            (v / 0x100_0000_0000 % 0x100) as u8,
            (v / 0x1_0000_0000_0000 % 0x100) as u8,
            (v / 0x100_0000_0000_0000) as u8,
        ];
        assert(bytes@ =~= self.packed());
        try_write(bytes.as_slice(), buf)
    }
}

impl SerializePacked for Address {
    open spec fn packed(&self) -> Seq<u8> {
        self@
    }

    fn write_bytes(&self, buf: &mut Cursor) -> (r: Result<(), SimpleDexError>) {
        try_write(self.bytes.as_slice(), buf)
    }
}

} // verus!
