//! Ring buffer of audio samples between the emulator (producer) and
//! the audio callback (consumer).
//!
//! Positions are free-running `usize` counters that wrap; a position
//! addresses slot `position & RING_MASK`. The samples waiting to be
//! played are the `write - read` (wrapping) slots from `read` on.

use vstd::prelude::*;
use vstd::arithmetic::div_mod::{lemma_fundamental_div_mod, lemma_fundamental_div_mod_converse};

verus! {

/// Ring buffer capacity (a power of two): 65 536 samples, about 1.49 s.
pub const RING_CAP: usize = 65_536;

/// Mask from a position to its slot.
pub const RING_MASK: usize = 65_535;

/// Single-producer single-consumer ring of 16-bit samples.
pub struct Ring {
    /// The slots.
    pub data: Vec<i16>,
    /// Next position the producer will write to.
    pub write: usize,
    /// Next position the consumer will read from.
    pub read: usize,
}

/// The slot a position addresses.
pub open spec fn slot(pos: int) -> int {
    pos % 65_536
}

/// `d` after `s[0..k]` are written at consecutive slots from position
/// `start`.
pub open spec fn written(d: Seq<i16>, start: int, s: Seq<i16>, k: nat) -> Seq<i16>
    decreases k,
{
    if k == 0 {
        d
    } else {
        written(d, start, s, (k - 1) as nat).update(slot(start + k - 1), s[k - 1])
    }
}

impl Ring {
    /// The invariant: one slot per capacity.
    pub open spec fn wf(&self) -> bool {
        self.data@.len() == 65_536
    }

    /// Number of samples waiting to be played.
    pub open spec fn available(&self) -> int {
        self.write.wrapping_sub(self.read) as int
    }

    /// The samples waiting to be played, oldest first.
    pub open spec fn pending(&self) -> Seq<i16> {
        Seq::new(self.available() as nat, |i: int| self.data@[slot(self.read + i)])
    }

    /// Creates an empty ring of silent slots.
    pub fn new() -> (r: Ring)
        ensures
            r.wf(),
            r.data@ == Seq::new(65_536, |i: int| 0i16),
            r.write == 0,
            r.read == 0,
            r.pending() == Seq::<i16>::empty(),
    {
        let data = vec![0i16; RING_CAP];
        assert(data@ =~= Seq::new(65_536, |i: int| 0i16));
        let r = Ring { data, write: 0, read: 0 };
        assert(r.pending() =~= Seq::<i16>::empty());
        r
    }

    /// Pushes a batch of samples (producer side) at consecutive slots
    /// from the write position, which moves past them.
    pub fn push(&mut self, samples: &[i16])
        requires
            old(self).wf(),
        ensures
            final(self).wf(),
            final(self).data@ == written(old(self).data@, old(self).write as int, samples@, samples@.len()),
            final(self).write == old(self).write.wrapping_add(samples@.len() as usize),
            final(self).read == old(self).read,
    {
        let mut w = self.write;
        let mut i: usize = 0;
        proof {
            lemma_mask_is_slot();
        }
        while i < samples.len()
            invariant
                i <= samples@.len(),
                self.data@.len() == 65_536,
                self.read == old(self).read,
                w == old(self).write.wrapping_add(i),
                self.data@ == written(old(self).data@, old(self).write as int, samples@, i as nat),
                forall|x: usize| #[trigger] (x & 65_535) == x % 65_536,
            decreases samples@.len() - i,
        {
            proof {
                lemma_slot_of_wrapping(old(self).write, i);
            }
            self.data.set(w & RING_MASK, samples[i]);
            w = w.wrapping_add(1);
            i = i + 1;
            proof {
                lemma_wrapping_step(old(self).write, (i - 1) as usize);
            }
        }
        self.write = w;
    }

    /// Pops up to `dst.len()` samples into `dst` (consumer side) and
    /// fills the rest of `dst` with `fill`; returns how many samples
    /// were popped.
    pub fn pop_into(&mut self, dst: &mut Vec<i16>, fill: i16) -> (n: usize)
        requires
            old(self).wf(),
        ensures
            final(self).wf(),
            n as int == if old(self).available() < old(dst)@.len() {
                old(self).available()
            } else {
                old(dst)@.len() as int
            },
            final(dst)@ == Seq::new(
                old(dst)@.len(),
                |i: int| if i < n { old(self).pending()[i] } else { fill },
            ),
            final(self).read == old(self).read.wrapping_add(n),
            final(self).write == old(self).write,
            final(self).data@ == old(self).data@,
    {
        let r = self.read;
        let avail = self.write.wrapping_sub(r);
        let n = if avail < dst.len() {
            avail
        } else {
            dst.len()
        };
        proof {
            lemma_mask_is_slot();
        }
        let mut i: usize = 0;
        while i < dst.len()
            invariant
                i <= dst@.len(),
                dst@.len() == old(dst)@.len(),
                n <= dst@.len(),
                n <= avail,
                avail == old(self).available(),
                r == old(self).read,
                *self == *old(self),
                self.data@.len() == 65_536,
                forall|x: usize| #[trigger] (x & 65_535) == x % 65_536,
                forall|j: int|
                    0 <= j < i ==> dst@[j] == (if j < n {
                        old(self).pending()[j]
                    } else {
                        fill
                    }),
            decreases dst@.len() - i,
        {
            if i < n {
                let pos = r.wrapping_add(i);
                proof {
                    lemma_slot_of_wrapping(r, i);
                }
                let v = self.data[pos & RING_MASK];
                dst.set(i, v);
            } else {
                dst.set(i, fill);
            }
            i = i + 1;
        }
        assert(dst@ =~= Seq::new(
            old(dst)@.len(),
            |i: int| if i < n { old(self).pending()[i] } else { fill },
        ));
        self.read = r.wrapping_add(n);
        n
    }
}

/// Masking a position gives its slot.
proof fn lemma_mask_is_slot()
    ensures
        forall|x: usize| #[trigger] (x & 65_535) == x % 65_536,
{
    assert forall|x: usize| #[trigger] (x & 65_535) == x % 65_536 by {
        assert(x & 65_535 == x % 65_536) by (bit_vector);
    }
}

/// The whole range of `usize` is a multiple of the capacity.
proof fn lemma_range_multiple()
    ensures
        (usize::MAX as int + 1) % 65_536 == 0,
        usize::MAX as int + 1 >= 65_536 * 65_536,
{
    assert(usize::MAX == 0xFFFF_FFFF || usize::MAX == 0xFFFF_FFFF_FFFF_FFFF);
}

/// A position moved on by `i` (wrapping) addresses the slot `i` on from
/// the first.
proof fn lemma_slot_of_wrapping(start: usize, i: usize)
    ensures
        slot(start.wrapping_add(i) as int) == slot(start + i),
{
    lemma_range_multiple();
    let m = usize::MAX as int + 1;
    if start + i > usize::MAX {
        let k = m / 65_536;
        assert(m == 65_536 * k);
        assert((start + i - m) % 65_536 == (start + i) % 65_536) by (nonlinear_arith)
            requires
                m == 65_536 * k,
        ;
    }
}

/// Moving a position on by one more.
proof fn lemma_wrapping_step(start: usize, i: usize)
    requires
        i < usize::MAX,
    ensures
        start.wrapping_add(i).wrapping_add(1) == start.wrapping_add((i + 1) as usize),
{
    lemma_range_multiple();
}

/// Where `s[0..k]` landed (`k <= 65 536`): a slot `j < k` on from
/// `start`'s holds `s[j]`, and the other slots keep their samples.
proof fn lemma_written(d: Seq<i16>, start: int, s: Seq<i16>, k: nat)
    requires
        d.len() == 65_536,
        k <= s.len(),
        k <= 65_536,
    ensures
        written(d, start, s, k).len() == 65_536,
        forall|p: int|
            0 <= p < 65_536 ==> #[trigger] written(d, start, s, k)[p] == if slot(p - start) < k {
                s[slot(p - start)]
            } else {
                d[p]
            },
    decreases k,
{
    if k > 0 {
        lemma_written(d, start, s, (k - 1) as nat);
        let q = slot(start + k - 1);
        assert forall|p: int| 0 <= p < 65_536 implies #[trigger] written(d, start, s, k)[p] == if slot(
            p - start,
        ) < k {
            s[slot(p - start)]
        } else {
            d[p]
        } by {
            assert((p == q) == (slot(p - start) == k - 1)) by (nonlinear_arith)
                requires
                    0 <= p < 65_536,
                    q == slot(start + k - 1),
                    1 <= k <= 65_536,
            ;
        }
    }
}

/// Samples come out in the order they went in: when the ring has room
/// for a batch, pushing it appends it to the pending samples.
pub proof fn lemma_push_appends(before: Ring, after: Ring, s: Seq<i16>)
    requires
        before.wf(),
        before.available() + s.len() <= 65_536,
        after.data@ == written(before.data@, before.write as int, s, s.len()),
        after.write == before.write.wrapping_add(s.len() as usize),
        after.read == before.read,
    ensures
        after.pending() == before.pending() + s,
{
    lemma_range_multiple();
    let a = before.available();
    let rd = before.read as int;
    let wr = before.write as int;
    let m = usize::MAX as int + 1;
    lemma_written(before.data@, wr, s, s.len());
    // The write position is `a` slots on from the read position.
    assert(slot(wr) == slot(rd + a)) by {
        if wr < rd {
            let k = m / 65_536;
            assert(m == 65_536 * k);
            assert((rd + (wr - rd + m)) % 65_536 == wr % 65_536) by (nonlinear_arith)
                requires
                    m == 65_536 * k,
            ;
        }
    }
    assert(after.available() == a + s.len());
    assert forall|i: int| 0 <= i < a + s.len() implies #[trigger] after.pending()[i] == (
    before.pending() + s)[i] by {
        let p = slot(rd + i);
        if i < a {
            assert(slot(p - wr) >= s.len()) by (nonlinear_arith)
                requires
                    slot(wr) == slot(rd + a),
                    p == slot(rd + i),
                    0 <= i < a,
                    a + s.len() <= 65_536,
            ;
        } else {
            lemma_fundamental_div_mod(wr, 65_536);
            lemma_fundamental_div_mod(rd + a, 65_536);
            lemma_fundamental_div_mod(rd + i, 65_536);
            let qw = wr / 65_536;
            let qa = (rd + a) / 65_536;
            let qi = (rd + i) / 65_536;
            assert(p - wr == (qa - qi - qw) * 65_536 + (i - a)) by (nonlinear_arith)
                requires
                    wr == 65_536 * qw + slot(wr),
                    rd + a == 65_536 * qa + slot(rd + a),
                    rd + i == 65_536 * qi + p,
                    slot(wr) == slot(rd + a),
            ;
            lemma_fundamental_div_mod_converse(p - wr, 65_536, qa - qi - qw, i - a);
        }
    }
    assert(after.pending() =~= before.pending() + s);
}

/// Popping takes the oldest pending samples: what is left pending is
/// the rest, in order.
pub proof fn lemma_pop_takes_oldest(before: Ring, after: Ring, n: usize)
    requires
        before.wf(),
        n <= before.available(),
        after.data@ == before.data@,
        after.write == before.write,
        after.read == before.read.wrapping_add(n),
    ensures
        after.pending() == before.pending().skip(n as int),
{
    lemma_range_multiple();
    assert(after.available() == before.available() - n);
    assert forall|i: int| 0 <= i < before.available() - n implies #[trigger] after.pending()[i]
        == before.pending()[i + n] by {
        lemma_slot_of_wrapping(before.read, n);
        let p = before.read.wrapping_add(n) as int;
        assert(slot(p + i) == slot(before.read + n + i)) by (nonlinear_arith)
            requires
                slot(p) == slot(before.read + n),
                p >= 0,
                before.read >= 0,
        ;
    }
    assert(after.pending() =~= before.pending().skip(n as int));
}

} // verus!
