use vstd::prelude::*;

verus! {

/// The accumulator of a fresh hasher.
pub const DJB2_INIT: u64 = 5381;

/// One accumulation step: multiply the accumulator by 33, add the byte, and
/// wrap around at 64 bits.
pub open spec fn djb2_step(state: u64, byte: u8) -> u64 {
    ((state * 33 + byte) % 0x1_0000_0000_0000_0000) as u64
}

/// The accumulator after folding a whole byte sequence into `state`, first
/// byte first.
pub open spec fn djb2_fold(state: u64, bytes: Seq<u8>) -> u64
    decreases bytes.len(),
{
    if bytes.len() == 0 {
        state
    } else {
        djb2_fold(djb2_step(state, bytes[0]), bytes.drop_first())
    }
}

/// A DJB2 hasher.
///
/// A 64-bit accumulator starts at [`DJB2_INIT`] and folds bytes in with the
/// multiply-by-33 recurrence. It trades mixing quality for speed and is meant
/// for non-adversarial uses such as internal hash maps.
pub struct Djb2 {
    state: u64,
}

impl View for Djb2 {
    type V = u64;

    closed spec fn view(&self) -> u64 {
        self.state
    }
}

impl Default for Djb2 {
    /// A fresh hasher, its accumulator at [`DJB2_INIT`].
    fn default() -> (r: Djb2)
        ensures
            r@ == DJB2_INIT,
    {
        Djb2 { state: DJB2_INIT }
    }
}

impl Djb2 {
    /// Set the accumulator back to [`DJB2_INIT`], as if freshly created.
    pub fn reset(&mut self)
        ensures
            final(self)@ == DJB2_INIT,
    {
        self.state = DJB2_INIT;
    }

    /// The current accumulator. Reading it mutates nothing, so writing may
    /// continue afterwards and the hash may be read repeatedly.
    pub fn finish(&self) -> (r: u64)
        ensures
            r == self@,
    {
        self.state
    }

    /// Feed `bytes` into the accumulator in order. Total over every byte
    /// sequence; overflow wraps silently.
    pub fn write(&mut self, bytes: &[u8])
        ensures
            final(self)@ == djb2_fold(old(self)@, bytes@),
    {
        let mut i: usize = 0;
        while i < bytes.len()
            invariant
                i <= bytes@.len(),
                self@ == djb2_fold(old(self)@, bytes@.take(i as int)),
            decreases bytes@.len() - i,
        {
            let b = bytes[i];
            let s = self.state;
            self.state = (s << 5).wrapping_add(s).wrapping_add(b as u64);
            proof {
                lemma_djb2_exec_step(s, b);
                assert(bytes@.take(i + 1) =~= bytes@.take(i as int).push(b));
                lemma_djb2_fold_push(old(self)@, bytes@.take(i as int), b);
            }
            i = i + 1;
        }
        proof {
            assert(bytes@.take(bytes@.len() as int) =~= bytes@);
        }
    }
}

/// The shift-and-add form the code computes equals the multiply-by-33 step.
proof fn lemma_djb2_exec_step(s: u64, b: u8)
    by (bit_vector)
    ensures
        (((((s << 5) + s) % 0x1_0000_0000_0000_0000) as u64 + b) % 0x1_0000_0000_0000_0000) as u64
            == ((s * 33 + b) % 0x1_0000_0000_0000_0000) as u64,
{
}

/// Folding one more byte at the end applies one more step.
proof fn lemma_djb2_fold_push(state: u64, s: Seq<u8>, b: u8)
    ensures
        djb2_fold(state, s.push(b)) == djb2_step(djb2_fold(state, s), b),
    decreases s.len(),
{
    if s.len() == 0 {
        assert(s.push(b)[0] == b);
        assert(s.push(b).drop_first() =~= Seq::<u8>::empty());
        assert(djb2_fold(djb2_step(state, b), Seq::<u8>::empty()) == djb2_step(state, b));
    } else {
        assert(s.push(b)[0] == s[0]);
        assert(s.push(b).drop_first() =~= s.drop_first().push(b));
        assert(djb2_fold(state, s.push(b)) == djb2_fold(
            djb2_step(state, s[0]),
            s.drop_first().push(b),
        ));
        lemma_djb2_fold_push(djb2_step(state, s[0]), s.drop_first(), b);
        assert(djb2_fold(state, s) == djb2_fold(djb2_step(state, s[0]), s.drop_first()));
    }
}

/// Incremental consistency: hashing a byte sequence in one call equals
/// hashing the same bytes split into two successive calls.
pub proof fn lemma_djb2_fold_concat(state: u64, a: Seq<u8>, b: Seq<u8>)
    ensures
        djb2_fold(state, a + b) == djb2_fold(djb2_fold(state, a), b),
    decreases a.len(),
{
    if a.len() == 0 {
        assert(a + b =~= b);
    } else {
        assert((a + b).drop_first() =~= a.drop_first() + b);
        lemma_djb2_fold_concat(djb2_step(state, a[0]), a.drop_first(), b);
    }
}

} // verus!
