//! A fixed-capacity bit stream used to pack and unpack the game state:
//! values are written most-significant-bit-first, up to 162 bits (27 groups
//! of 6).

use crate::storage::bits_get;
use crate::storage::bits_new;
use crate::storage::bits_seq;
use crate::storage::bits_set;
use crate::storage::BitStore;
use vstd::arithmetic::power2::pow2;
use vstd::prelude::*;

verus! {

/// Whether bit `k` (counting from the least significant) of `v` is set.
pub open spec fn bit_of(v: u8, k: u8) -> bool
    recommends
        k < 8,
{
    (v >> k) & 1 == 1
}

/// The lowest `n` bits of `v`, most significant first.
pub open spec fn be_bits(v: u8, n: nat) -> Seq<bool>
    recommends
        n <= 8,
{
    Seq::new(n, |i: int| bit_of(v, (n - 1 - i) as u8))
}

/// The value of a bit sequence read most significant bit first.
pub open spec fn be_val(bits: Seq<bool>) -> nat
    decreases bits.len(),
{
    if bits.len() == 0 {
        0
    } else {
        2 * be_val(bits.drop_last()) + if bits.last() {
            1nat
        } else {
            0nat
        }
    }
}

/// A sequence of `n` one bits.
pub open spec fn ones(n: nat) -> Seq<bool> {
    Seq::new(n, |i: int| true)
}

/// A sequence of `n` zero bits.
pub open spec fn zeros(n: nat) -> Seq<bool> {
    Seq::new(n, |i: int| false)
}

/// A fixed-capacity stream of up to 162 bits. Its view is the sequence of
/// bits written so far.
pub struct SerializedBits {
    store: BitStore,
    len: usize,
}

impl View for SerializedBits {
    type V = Seq<bool>;

    closed spec fn view(&self) -> Seq<bool> {
        bits_seq(self.store).take(self.len as int)
    }
}

impl SerializedBits {
    /// The backing store holds 192 bits and at most 162 are in use.
    pub open spec fn wf(self) -> bool {
        &&& self@.len() <= 162
        &&& self.spec_len() == self@.len()
        &&& self.spec_store_len() == 192
    }

    /// The write position, which equals the view's length for a
    /// well-formed stream.
    pub closed spec fn spec_len(self) -> int {
        self.len as int
    }

    /// The length of the backing store's bit sequence.
    pub closed spec fn spec_store_len(self) -> int {
        bits_seq(self.store).len() as int
    }

    /// Returns an empty stream.
    pub fn new() -> (r: Self)
        ensures
            r.wf(),
            r@ == Seq::<bool>::empty(),
    {
        let r = SerializedBits { store: bits_new(), len: 0 };
        proof {
            assert(r@ =~= Seq::<bool>::empty());
        }
        r
    }

    /// Returns the number of bits written so far.
    pub fn len(&self) -> (r: usize)
        requires
            self.wf(),
        ensures
            r == self@.len(),
    {
        self.len
    }

    /// Appends one bit.
    pub fn push_bit(&mut self, b: bool)
        requires
            old(self).wf(),
            old(self)@.len() < 162,
        ensures
            final(self).wf(),
            final(self)@ == old(self)@.push(b),
    {
        bits_set(&mut self.store, self.len, b);
        self.len = self.len + 1;
        proof {
            assert(self@ =~= old(self)@.push(b));
        }
    }

    /// Appends the lowest `n` bits of `v`, most significant first.
    pub fn push_bits(&mut self, n: usize, v: u8)
        requires
            old(self).wf(),
            n <= 8,
            old(self)@.len() + n <= 162,
            v < pow2(n as nat),
        ensures
            final(self).wf(),
            final(self)@ == old(self)@ + be_bits(v, n as nat),
    {
        let mut k: usize = 0;
        while k < n
            invariant
                k <= n <= 8,
                old(self)@.len() + n <= 162,
                self.wf(),
                self@ == old(self)@ + be_bits(v, n as nat).take(k as int),
            decreases n - k,
        {
            let shift: usize = n - 1 - k;
            self.push_bit((v >> shift) & 1 == 1);
            proof {
                assert(old(self)@ + be_bits(v, n as nat).take(k as int + 1) =~= (old(self)@
                    + be_bits(v, n as nat).take(k as int)).push(
                    bit_of(v, (n - 1 - k) as u8),
                ));
            }
            k += 1;
        }
        proof {
            assert(be_bits(v, n as nat).take(n as int) =~= be_bits(v, n as nat));
        }
    }

    /// Appends one bits until the stream holds the full 162 bits.
    pub fn fill_ones(&mut self)
        requires
            old(self).wf(),
        ensures
            final(self).wf(),
            final(self)@ == old(self)@ + ones((162 - old(self)@.len()) as nat),
            final(self)@.len() == 162,
    {
        while self.len() < 162
            invariant
                self.wf(),
                old(self)@.len() <= self@.len() <= 162,
                self@ == old(self)@ + ones((self@.len() - old(self)@.len()) as nat),
            decreases 162 - self@.len(),
        {
            self.push_bit(true);
            proof {
                assert(self@ =~= old(self)@ + ones((self@.len() - old(self)@.len()) as nat));
            }
        }
        proof {
            assert(self@ =~= old(self)@ + ones((162 - old(self)@.len()) as nat));
        }
    }

    /// Appends zero bits until the length is a multiple of 6.
    pub fn pad_zeros(&mut self)
        requires
            old(self).wf(),
        ensures
            final(self).wf(),
            final(self)@ == old(self)@ + zeros(
                ((old(self)@.len() + 5) / 6 * 6 - old(self)@.len()) as nat,
            ),
            final(self)@.len() == (old(self)@.len() + 5) / 6 * 6,
    {
        let target: usize = (self.len() + 5) / 6 * 6;
        while self.len() < target
            invariant
                self.wf(),
                old(self)@.len() <= self@.len() <= target,
                target == (old(self)@.len() + 5) / 6 * 6,
                target <= 162,
                self@ == old(self)@ + zeros((self@.len() - old(self)@.len()) as nat),
            decreases target - self@.len(),
        {
            self.push_bit(false);
            proof {
                assert(self@ =~= old(self)@ + zeros((self@.len() - old(self)@.len()) as nat));
            }
        }
        proof {
            assert(self@ =~= old(self)@ + zeros((target - old(self)@.len()) as nat));
        }
    }

    /// Reads the `n` bits starting at `pos` as a value, most significant
    /// bit first.
    pub fn read_bits(&self, pos: usize, n: usize) -> (r: u8)
        requires
            self.wf(),
            n <= 8,
            pos + n <= self@.len(),
        ensures
            r == be_val(self@.subrange(pos as int, pos + n)),
            r < pow2(n as nat),
    {
        proof {
            vstd::arithmetic::power2::lemma2_to64();
        }
        let mut acc: u8 = 0;
        let mut k: usize = 0;
        while k < n
            invariant
                k <= n <= 8,
                self.wf(),
                pos + n <= self@.len(),
                acc == be_val(self@.subrange(pos as int, pos + k)),
                acc < pow2(k as nat),
            decreases n - k,
        {
            proof {
                vstd::arithmetic::power2::lemma2_to64();
                vstd::arithmetic::power2::lemma_pow2_unfold(k as nat + 1);
                assert(pow2(k as nat) <= 128) by {
                    vstd::arithmetic::power2::lemma_pow2_strictly_increases(k as nat, 8);
                }
            }
            let b = bits_get_at(self, pos + k);
            acc = acc * 2 + if b {
                1
            } else {
                0
            };
            proof {
                assert(self@.subrange(pos as int, pos + k + 1).drop_last() =~= self@.subrange(
                    pos as int,
                    pos + k,
                ));
                assert(self@.subrange(pos as int, pos + k + 1).last() == self@[pos + k]);
            }
            k += 1;
        }
        acc
    }
}

/// Reads the bit at `pos`.
fn bits_get_at(s: &SerializedBits, pos: usize) -> (r: bool)
    requires
        s.wf(),
        pos < s@.len(),
    ensures
        r == s@[pos as int],
{
    bits_get(&s.store, pos)
}

} // verus!
