use vstd::prelude::*;
use crate::checksum::{fold16, Checksum};
use crate::error::Error;
use crate::serial::Serial;

verus! {

/// A 16-bit value on the wire: the high byte, then the low byte.
pub open spec fn be16(v: u16) -> Seq<u8> {
    seq![(v / 0x100) as u8, (v % 0x100) as u8]
}

/// A 32-bit value on the wire: four bytes, the highest first.
pub open spec fn be32(v: u32) -> Seq<u8> {
    seq![
        (v / 0x100_0000) as u8,
        (v / 0x1_0000 % 0x100) as u8,
        (v / 0x100 % 0x100) as u8,
        (v % 0x100) as u8,
    ]
}

/// The 16-bit value whose high byte is `hi` and whose low byte is `lo`.
pub open spec fn u16_of(hi: u8, lo: u8) -> u16 {
    (hi as int * 0x100 + lo as int) as u16
}

/// The 32-bit value of four bytes, the highest first.
pub open spec fn u32_of(b3: u8, b2: u8, b1: u8, b0: u8) -> u32 {
    (b3 as int * 0x100_0000 + b2 as int * 0x1_0000 + b1 as int * 0x100 + b0 as int) as u32
}

/// Reading back a 16-bit value that was written gives the value again.
pub proof fn lemma_be16_round_trip(v: u16)
    ensures
        be16(v).len() == 2,
        u16_of(be16(v)[0], be16(v)[1]) == v,
{
}

/// Writing a 16-bit value that was read gives the bytes again.
pub proof fn lemma_u16_of_round_trip(hi: u8, lo: u8)
    ensures
        be16(u16_of(hi, lo)) == seq![hi, lo],
{
}

/// Reading back a 32-bit value that was written gives the value again.
pub proof fn lemma_be32_round_trip(v: u32)
    ensures
        be32(v).len() == 4,
        u32_of(be32(v)[0], be32(v)[1], be32(v)[2], be32(v)[3]) == v,
{
}

/// Writing a 32-bit value that was read gives the bytes again.
pub proof fn lemma_u32_of_round_trip(b3: u8, b2: u8, b1: u8, b0: u8)
    ensures
        be32(u32_of(b3, b2, b1, b0)) == seq![b3, b2, b1, b0],
{
    let (x3, x2, x1, x0) = (b3 as u32, b2 as u32, b1 as u32, b0 as u32);
    assert(x3 < 0x100 && x2 < 0x100 && x1 < 0x100 && x0 < 0x100 ==> {
        let w = (x3 * 0x100_0000 + x2 * 0x1_0000 + x1 * 0x100 + x0) as u32;
        &&& w / 0x100_0000 == x3
        &&& w / 0x1_0000 % 0x100 == x2
        &&& w / 0x100 % 0x100 == x1
        &&& w % 0x100 == x0
    }) by (bit_vector);
}

/// A value with a fixed layout on the wire that can be sent.
pub trait ToWire {
    /// The bytes that stand for this value on the wire.
    spec fn wire(&self) -> Seq<u8>;

    /// How many bytes `to_wire` writes: known before anything is written.
    fn size_on_wire(&self) -> (n: usize)
        ensures
            n == self.wire().len(),
    ;

    /// Writes this value's bytes to `serial` and, where a checksum is given,
    /// adds them to it in the order written.
    fn to_wire(&self, serial: &mut Serial, cksm: Option<&mut Checksum>)
        ensures
            final(serial)@ == old(serial)@.push(self.wire()),
            cksm matches Some(c) ==> final(c)@ == fold16(c@, self.wire()),
    ;
}

/// A value with a fixed layout on the wire that can be received.
pub trait FromWire: Sized {
    /// How many bytes stand for one value.
    spec fn wire_len() -> nat;

    /// The value that `bytes` stand for, if any.
    spec fn decode(bytes: Seq<u8>) -> Option<Self>;

    /// Reads one value from `serial` in a single exact read and, where a
    /// checksum is given, adds the bytes read to it.
    fn from_wire(serial: &mut Serial, cksm: Option<&mut Checksum>) -> (r: Result<Self, Error>)
        ensures
            r == match old(serial)@.read(Self::wire_len() as int) {
                Err(e) => Err(e),
                Ok(bytes) => match Self::decode(bytes) {
                    Some(value) => Ok(value),
                    None => Err(Error::IncorrectData),
                },
            },
            final(serial)@ == old(serial)@.advance(Self::wire_len() as int),
            cksm matches Some(c) ==> final(c)@ == old(serial)@.fold(Self::wire_len() as int, c@),
    ;
}

/// Fills `buf` by one exact read and, where a checksum is given and the read
/// succeeded, adds the bytes to it.
pub fn read_covered(serial: &mut Serial, cksm: Option<&mut Checksum>, buf: &mut [u8]) -> (r:
    Result<(), Error>)
    ensures
        final(serial)@ == old(serial)@.advance(old(buf)@.len() as int),
        final(buf)@.len() == old(buf)@.len(),
        match r {
            Ok(()) => old(serial)@.read(old(buf)@.len() as int) == Ok::<Seq<u8>, Error>(final(buf)@),
            Err(e) => {
                &&& old(serial)@.read(old(buf)@.len() as int) == Err::<Seq<u8>, Error>(e)
                &&& final(buf)@ == old(buf)@
            },
        },
        cksm matches Some(c) ==> final(c)@ == old(serial)@.fold(old(buf)@.len() as int, c@),
{
    match serial.read_exact(buf) {
        Ok(()) => {
            if let Some(c) = cksm {
                c.update(buf);
            }
            Ok(())
        },
        Err(e) => Err(e),
    }
}

impl ToWire for [u8] {
    open spec fn wire(&self) -> Seq<u8> {
        self@
    }

    fn size_on_wire(&self) -> (n: usize) {
        self.len()
    }

    fn to_wire(&self, serial: &mut Serial, cksm: Option<&mut Checksum>) {
        if let Some(c) = cksm {
            c.update(self);
        }
        serial.write_all(self)
    }
}

impl ToWire for u8 {
    open spec fn wire(&self) -> Seq<u8> {
        seq![*self]
    }

    fn size_on_wire(&self) -> (n: usize) {
        1
    }

    fn to_wire(&self, serial: &mut Serial, cksm: Option<&mut Checksum>) {
        let bytes = [*self];
        proof {
            assert(bytes@ =~= self.wire());
        }
        bytes.as_slice().to_wire(serial, cksm)
    }
}

impl FromWire for u8 {
    open spec fn wire_len() -> nat {
        1
    }

    open spec fn decode(bytes: Seq<u8>) -> Option<Self> {
        Some(bytes[0])
    }

    fn from_wire(serial: &mut Serial, cksm: Option<&mut Checksum>) -> (r: Result<Self, Error>) {
        let mut buf = [0u8; 1];
        match read_covered(serial, cksm, &mut buf) {
            Ok(()) => Ok(buf[0]),
            Err(e) => Err(e),
        }
    }
}

impl ToWire for u16 {
    open spec fn wire(&self) -> Seq<u8> {
        be16(*self)
    }

    fn size_on_wire(&self) -> (n: usize) {
        2
    }

    fn to_wire(&self, serial: &mut Serial, cksm: Option<&mut Checksum>) {
        let bytes = [(*self / 0x100) as u8, (*self % 0x100) as u8];
        bytes.as_slice().to_wire(serial, cksm)
    }
}

impl FromWire for u16 {
    open spec fn wire_len() -> nat {
        2
    }

    open spec fn decode(bytes: Seq<u8>) -> Option<Self> {
        Some(u16_of(bytes[0], bytes[1]))
    }

    fn from_wire(serial: &mut Serial, cksm: Option<&mut Checksum>) -> (r: Result<Self, Error>) {
        let mut buf = [0u8; 2];
        match read_covered(serial, cksm, &mut buf) {
            Ok(()) => Ok(buf[0] as u16 * 0x100 + buf[1] as u16),
            Err(e) => Err(e),
        }
    }
}

impl ToWire for u32 {
    open spec fn wire(&self) -> Seq<u8> {
        be32(*self)
    }

    fn size_on_wire(&self) -> (n: usize) {
        4
    }

    fn to_wire(&self, serial: &mut Serial, cksm: Option<&mut Checksum>) {
        let bytes = [
            (*self / 0x100_0000) as u8,
            (*self / 0x1_0000 % 0x100) as u8,
            (*self / 0x100 % 0x100) as u8,
            (*self % 0x100) as u8,
        ];
        bytes.as_slice().to_wire(serial, cksm)
    }
}

impl FromWire for u32 {
    open spec fn wire_len() -> nat {
        4
    }

    open spec fn decode(bytes: Seq<u8>) -> Option<Self> {
        Some(u32_of(bytes[0], bytes[1], bytes[2], bytes[3]))
    }

    fn from_wire(serial: &mut Serial, cksm: Option<&mut Checksum>) -> (r: Result<Self, Error>) {
        let mut buf = [0u8; 4];
        match read_covered(serial, cksm, &mut buf) {
            Ok(()) => Ok(
                buf[0] as u32 * 0x100_0000 + buf[1] as u32 * 0x1_0000 + buf[2] as u32 * 0x100
                    + buf[3] as u32,
            ),
            Err(e) => Err(e),
        }
    }
}

impl ToWire for () {
    open spec fn wire(&self) -> Seq<u8> {
        Seq::empty()
    }

    fn size_on_wire(&self) -> (n: usize) {
        0
    }

    fn to_wire(&self, serial: &mut Serial, cksm: Option<&mut Checksum>) {
    }
}

impl FromWire for () {
    open spec fn wire_len() -> nat {
        0
    }

    open spec fn decode(bytes: Seq<u8>) -> Option<Self> {
        Some(())
    }

    fn from_wire(serial: &mut Serial, cksm: Option<&mut Checksum>) -> (r: Result<Self, Error>) {
        proof {
            assert(serial@.advance(0).incoming =~= serial@.incoming);
        }
        Ok(())
    }
}

impl<const N: usize> ToWire for [u8; N] {
    open spec fn wire(&self) -> Seq<u8> {
        self@
    }

    fn size_on_wire(&self) -> (n: usize) {
        N
    }

    fn to_wire(&self, serial: &mut Serial, cksm: Option<&mut Checksum>) {
        self.as_slice().to_wire(serial, cksm)
    }
}

/// An array of zeros in which the first `k` places hold the first `k` of `bytes`.
pub open spec fn filled<const N: usize>(bytes: Seq<u8>, k: nat) -> [u8; N]
    decreases k,
{
    if k == 0 {
        vstd::array::spec_array_fill_for_copy_type::<u8, N>(0)
    } else {
        vstd::array::spec_array_update(filled::<N>(bytes, (k - 1) as nat), k - 1, bytes[k - 1])
    }
}

/// The array that holds `bytes`, where they are as many as it has places.
pub open spec fn array_of<const N: usize>(bytes: Seq<u8>) -> [u8; N] {
    filled::<N>(bytes, N as nat)
}

proof fn lemma_filled<const N: usize>(bytes: Seq<u8>, k: nat)
    requires
        bytes.len() == N,
        k <= N,
    ensures
        filled::<N>(bytes, k)@.len() == N,
        forall|i: int| 0 <= i < k ==> filled::<N>(bytes, k)@[i] == bytes[i],
    decreases k,
{
    if k > 0 {
        lemma_filled::<N>(bytes, (k - 1) as nat);
    }
}

/// As many bytes as an array has places are the bytes of their array, and
/// an array is the array of its own bytes.
pub proof fn lemma_array_of<const N: usize>(bytes: Seq<u8>)
    requires
        bytes.len() == N,
    ensures
        array_of::<N>(bytes)@ == bytes,
        forall|a: [u8; N]| a@ == bytes ==> a == array_of::<N>(bytes),
{
    lemma_filled::<N>(bytes, N as nat);
    assert(array_of::<N>(bytes)@ =~= bytes);
    assert forall|a: [u8; N]| a@ == bytes implies a == array_of::<N>(bytes) by {
        assert forall|i: int| 0 <= i < N implies a[i] == array_of::<N>(bytes)[i] by {
            assert(a@[i] == array_of::<N>(bytes)@[i]);
        }
        assert(a =~= array_of::<N>(bytes));
    }
}

impl<const N: usize> FromWire for [u8; N] {
    open spec fn wire_len() -> nat {
        N as nat
    }

    open spec fn decode(bytes: Seq<u8>) -> Option<Self> {
        Some(array_of::<N>(bytes))
    }

    fn from_wire(serial: &mut Serial, cksm: Option<&mut Checksum>) -> (r: Result<Self, Error>) {
        let mut buf = [0u8; N];
        match read_covered(serial, cksm, &mut buf) {
            Ok(()) => {
                proof {
                    lemma_array_of::<N>(buf@);
                }
                Ok(buf)
            },
            Err(e) => Err(e),
        }
    }
}

} // verus!
