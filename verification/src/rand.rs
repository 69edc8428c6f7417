use vstd::prelude::*;

verus! {

/// The additive constant of the mixing step.
pub const MIX_K: u64 = 0x25A45B35C4FD3DF2;

/// `state` rotated right by four bits.
pub open spec fn rot4(state: u64) -> u64 {
    (state >> 4) | (state << 60)
}

/// One mixing step: fold a rotated-and-offset copy of the state back into it
/// (the add wraps around at 64 bits), then fold in a right shift.
pub open spec fn mix(state: u64) -> u64 {
    let a = state ^ vstd::wrapping::u64_specs::wrapping_add(rot4(state), MIX_K);
    a ^ (a >> 7)
}

/// The state after `n` mixing steps.
pub open spec fn mix_n(state: u64, n: nat) -> u64
    decreases n,
{
    if n == 0 {
        state
    } else {
        mix(mix_n(state, (n - 1) as nat))
    }
}

/// The byte a generator in `state` hands out `i` reads from now (counting
/// from zero): the low byte of the state after `i + 1` mixing steps.
pub open spec fn byte_at(state: u64, i: nat) -> u8 {
    mix_n(state, i + 1) as u8
}

/// The state after one entropy byte is folded in and diffused.
pub open spec fn feed(state: u64, byte: u8) -> u64 {
    mix(state ^ (byte as u64))
}

/// The state after a whole entropy byte sequence is folded in, first byte
/// first.
pub open spec fn feed_all(state: u64, bytes: Seq<u8>) -> u64
    decreases bytes.len(),
{
    if bytes.len() == 0 {
        state
    } else {
        feed_all(feed(state, bytes[0]), bytes.drop_first())
    }
}

/// A non-cryptographic pseudo-random byte generator of the xor-shift family.
///
/// Its whole state is one 64-bit word, set directly from the seed (no
/// constant is mixed in). Every operation is a pure function of the state, so
/// the byte stream of a given seed is reproducible bit for bit.
pub struct Randomizer {
    state: u64,
}

impl View for Randomizer {
    type V = u64;

    closed spec fn view(&self) -> u64 {
        self.state
    }
}

impl Randomizer {
    /// Create a new randomizer from a seed. The internal state equals the
    /// seed itself.
    pub fn new(seed: u64) -> (r: Randomizer)
        ensures
            r@ == seed,
    {
        Randomizer { state: seed }
    }

    /// Write a buffer into the randomizer (as entropy), one byte at a time in
    /// order.
    pub fn write(&mut self, buf: &[u8])
        ensures
            final(self)@ == feed_all(old(self)@, buf@),
    {
        let mut i: usize = 0;
        while i < buf.len()
            invariant
                i <= buf@.len(),
                self@ == feed_all(old(self)@, buf@.take(i as int)),
            decreases buf@.len() - i,
        {
            let b = buf[i];
            self.write_u8(b);
            proof {
                assert(buf@.take(i + 1) =~= buf@.take(i as int).push(b));
                lemma_feed_all_push(old(self)@, buf@.take(i as int), b);
            }
            i = i + 1;
        }
        proof {
            assert(buf@.take(buf@.len() as int) =~= buf@);
        }
    }

    /// Fill a buffer with random bytes, front to back, one [`Self::read_u8`]
    /// call per byte. The buffer keeps its length.
    pub fn read(&mut self, buf: &mut [u8])
        ensures
            final(buf)@.len() == old(buf)@.len(),
            final(self)@ == mix_n(old(self)@, old(buf)@.len() as nat),
            forall|i: int|
                0 <= i < old(buf)@.len() ==> final(buf)@[i] == byte_at(old(self)@, i as nat),
    {
        let mut i: usize = 0;
        while i < buf.len()
            invariant
                i <= buf@.len(),
                buf@.len() == old(buf)@.len(),
                self@ == mix_n(old(self)@, i as nat),
                forall|j: int| 0 <= j < i ==> buf@[j] == byte_at(old(self)@, j as nat),
            decreases buf@.len() - i,
        {
            let b = self.read_u8();
            proof {
                lemma_mix_n_unfold(old(self)@, (i + 1) as nat);
            }
            buf[i] = b;
            i = i + 1;
        }
    }

    /// Read a byte from the randomizer: apply one mixing step and return the
    /// low eight bits of the new state.
    pub fn read_u8(&mut self) -> (r: u8)
        ensures
            final(self)@ == mix(old(self)@),
            r == mix(old(self)@) as u8,
    {
        let rotated: u64 = (self.state >> 4) | (self.state << 60);
        self.state = self.state ^ rotated.wrapping_add(MIX_K);
        self.state = self.state ^ (self.state >> 7);
        self.state as u8
    }

    /// Write a byte into the randomizer (as entropy): fold it into the state,
    /// then run one discarded mixing step so the next read does not trivially
    /// leak it.
    pub fn write_u8(&mut self, b: u8)
        ensures
            final(self)@ == feed(old(self)@, b),
    {
        self.state = self.state ^ (b as u64);
        let _discarded: u8 = self.read_u8();
    }
}

/// Feeding one more entropy byte at the end applies one more [`feed`] step.
proof fn lemma_feed_all_push(state: u64, s: Seq<u8>, b: u8)
    ensures
        feed_all(state, s.push(b)) == feed(feed_all(state, s), b),
    decreases s.len(),
{
    if s.len() == 0 {
        assert(s.push(b)[0] == b);
        assert(s.push(b).drop_first() =~= Seq::<u8>::empty());
        assert(feed_all(feed(state, b), Seq::<u8>::empty()) == feed(state, b));
    } else {
        assert(s.push(b)[0] == s[0]);
        assert(s.push(b).drop_first() =~= s.drop_first().push(b));
        assert(feed_all(state, s.push(b)) == feed_all(feed(state, s[0]), s.drop_first().push(b)));
        lemma_feed_all_push(feed(state, s[0]), s.drop_first(), b);
        assert(feed_all(state, s) == feed_all(feed(state, s[0]), s.drop_first()));
    }
}

/// One more mixing step on top of `n` is a step applied to the `n`-step
/// state.
proof fn lemma_mix_n_unfold(state: u64, n: nat)
    requires
        n > 0,
    ensures
        mix_n(state, n) == mix(mix_n(state, (n - 1) as nat)),
{
}

/// An operation a caller can apply to a [`Randomizer`]: read one byte out, or
/// write one entropy byte in.
pub enum RandOp {
    /// One `read_u8` call.
    ReadByte,
    /// One `write_u8` call with the byte carried here.
    WriteByte(u8),
}

/// The state after a whole operation sequence, applied in order.
pub open spec fn run_state(state: u64, ops: Seq<RandOp>) -> u64
    decreases ops.len(),
{
    if ops.len() == 0 {
        state
    } else {
        let next = match ops[0] {
            RandOp::ReadByte => mix(state),
            RandOp::WriteByte(b) => feed(state, b),
        };
        run_state(next, ops.drop_first())
    }
}

/// The bytes an operation sequence reads out, in order.
pub open spec fn run_output(state: u64, ops: Seq<RandOp>) -> Seq<u8>
    decreases ops.len(),
{
    if ops.len() == 0 {
        Seq::empty()
    } else {
        match ops[0] {
            RandOp::ReadByte => seq![mix(state) as u8] + run_output(mix(state), ops.drop_first()),
            RandOp::WriteByte(b) => run_output(feed(state, b), ops.drop_first()),
        }
    }
}

/// Determinism: two generators built from equal seeds and fed the identical
/// operation sequence end in equal states and read out bit-identical bytes.
/// Each method's contract pins its result and new state to [`mix`] and
/// [`feed`] of the old state, so an executable run matches this model step
/// for step.
pub proof fn lemma_deterministic(seed1: u64, seed2: u64, ops: Seq<RandOp>)
    requires
        seed1 == seed2,
    ensures
        run_state(seed1, ops) == run_state(seed2, ops),
        run_output(seed1, ops) == run_output(seed2, ops),
{
}

} // verus!
