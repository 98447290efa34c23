use vstd::prelude::*;

verus! {

/// The plain sum of the bytes of `bytes`, with no reduction.
pub open spec fn byte_sum(bytes: Seq<u8>) -> nat
    decreases bytes.len(),
{
    if bytes.len() == 0 {
        0
    } else {
        byte_sum(bytes.drop_last()) + bytes.last() as nat
    }
}

/// The 16-bit accumulator that started at `start` and was fed `bytes`.
pub open spec fn fold16(start: u16, bytes: Seq<u8>) -> u16 {
    ((start as nat + byte_sum(bytes)) % 0x1_0000) as u16
}

/// The checksum of `bytes`: their sum modulo 2^16.
pub open spec fn checksum_of(bytes: Seq<u8>) -> u16 {
    fold16(0, bytes)
}

/// The sum of one byte is the byte.
pub proof fn lemma_byte_sum_one(b: u8)
    ensures
        byte_sum(seq![b]) == b as nat,
{
    assert(seq![b].drop_last() =~= Seq::<u8>::empty());
    assert(byte_sum(Seq::<u8>::empty()) == 0);
}

/// The sum of a concatenation is the sum of the sums.
pub proof fn lemma_byte_sum_concat(a: Seq<u8>, b: Seq<u8>)
    ensures
        byte_sum(a + b) == byte_sum(a) + byte_sum(b),
    decreases b.len(),
{
    if b.len() > 0 {
        assert((a + b).drop_last() =~= a + b.drop_last());
        lemma_byte_sum_concat(a, b.drop_last());
    }
}

/// Replacing one byte moves the sum by the difference of the two bytes.
pub proof fn lemma_byte_sum_update(s: Seq<u8>, i: int, v: u8)
    requires
        0 <= i < s.len(),
    ensures
        byte_sum(s.update(i, v)) + s[i] as nat == byte_sum(s) + v as nat,
    decreases s.len(),
{
    if i == s.len() - 1 {
        assert(s.update(i, v).drop_last() =~= s.drop_last());
    } else {
        assert(s.update(i, v).drop_last() =~= s.drop_last().update(i, v));
        lemma_byte_sum_update(s.drop_last(), i, v);
    }
}

/// Feeding two runs of bytes in turn is feeding their concatenation.
pub proof fn lemma_fold16_concat(start: u16, a: Seq<u8>, b: Seq<u8>)
    ensures
        fold16(fold16(start, a), b) == fold16(start, a + b),
{
    lemma_byte_sum_concat(a, b);
    let x = start as nat + byte_sum(a);
    let y = byte_sum(b);
    assert(((x % 0x1_0000) + y) % 0x1_0000 == (x + y) % 0x1_0000) by (nonlinear_arith);
}

/// The running 16-bit sum of the bytes of one frame.
pub struct Checksum {
    state: u16,
}

impl View for Checksum {
    type V = u16;

    closed spec fn view(&self) -> u16 {
        self.state
    }
}

impl Checksum {
    /// An accumulator that has seen no byte yet.
    pub fn new() -> (c: Self)
        ensures
            c@ == 0,
    {
        Self { state: 0 }
    }

    /// Adds every byte of `data`, wrapping at 2^16.
    pub fn update(&mut self, data: &[u8])
        ensures
            final(self)@ == fold16(old(self)@, data@),
    {
        let n = data.len();
        let mut i: usize = 0;
        while i < n
            invariant
                i <= n,
                n == data@.len(),
                self.state == fold16(old(self).state, data@.take(i as int)),
            decreases n - i,
        {
            proof {
                let seen = data@.take(i as int);
                assert(data@.take(i + 1) =~= seen + seq![data@[i as int]]);
                lemma_byte_sum_one(data@[i as int]);
                lemma_fold16_concat(old(self).state, seen, seq![data@[i as int]]);
            }
            self.state = self.state.wrapping_add(data[i] as u16);
            i += 1;
        }
        proof {
            assert(data@.take(n as int) =~= data@);
        }
    }

    /// The sum of everything that was fed in, modulo 2^16.
    pub fn finalize(self) -> (sum: u16)
        ensures
            sum == self@,
    {
        self.state
    }
}

impl Default for Checksum {
    fn default() -> (c: Self)
        ensures
            c@ == 0,
    {
        Self::new()
    }
}

} // verus!
