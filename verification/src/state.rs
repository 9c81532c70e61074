//! State permutation: the enumeration of every combination of property
//! values for one block state type.
//!
//! The generator is a mixed-radix odometer over the property domain sizes
//! `[s_0, .., s_{K-1}]`: it emits every tuple `(i_0, .., i_{K-1})` with
//! `i_j < s_j`, exactly once, in the fixed order in which the first
//! position varies fastest. The `n`-th emitted tuple is the sequence of
//! mixed-radix digits of `n` ([`tuple_at`]), so the order is part of the
//! contract: state indices, and with them the wire format, depend on it.

use vstd::arithmetic::div_mod::{lemma_fundamental_div_mod, lemma_fundamental_div_mod_converse};
use vstd::prelude::*;

verus! {

/// The product of a sequence of domain sizes: how many tuples the odometer
/// emits.
pub open spec fn size_product(s: Seq<usize>) -> nat
    decreases s.len(),
{
    if s.len() == 0 {
        1
    } else {
        (s[0] as nat) * size_product(s.drop_first())
    }
}

/// Whether every size is positive. Domains hold at least two values, so
/// sizes are positive in every intended use.
pub open spec fn positive_sizes(s: Seq<usize>) -> bool {
    forall|j: int| 0 <= j < s.len() ==> (#[trigger] s[j]) >= 1
}

/// The `n`-th tuple in odometer order: the mixed-radix digits of `n`, least
/// significant (fastest varying) digit first.
pub open spec fn tuple_at(s: Seq<usize>, n: int) -> Seq<int>
    decreases s.len(),
{
    if s.len() == 0 {
        Seq::empty()
    } else {
        seq![n % (s[0] as int)] + tuple_at(s.drop_first(), n / (s[0] as int))
    }
}

/// A sequence of machine integers as mathematical integers.
pub open spec fn to_ints(v: Seq<usize>) -> Seq<int> {
    v.map_values(|x: usize| x as int)
}

/// A product of positive sizes is positive.
pub proof fn lemma_size_product_positive(s: Seq<usize>)
    requires
        positive_sizes(s),
    ensures
        size_product(s) >= 1,
    decreases s.len(),
{
    if s.len() > 0 {
        assert(positive_sizes(s.drop_first())) by {
            assert(forall|j: int|
                0 <= j < s.drop_first().len() ==> #[trigger] s.drop_first()[j] == s[j + 1]);
        }
        lemma_size_product_positive(s.drop_first());
        assert((s[0] as nat) * size_product(s.drop_first()) >= 1) by (nonlinear_arith)
            requires
                s[0] >= 1,
                size_product(s.drop_first()) >= 1,
        ;
    }
}

/// Dropping the first size divides the product by that size.
proof fn lemma_size_product_skip(s: Seq<usize>, i: int)
    requires
        0 <= i < s.len(),
    ensures
        size_product(s.skip(i)) == (s[i] as nat) * size_product(s.skip(i + 1)),
{
    assert(s.skip(i).len() > 0);
    assert(s.skip(i)[0] == s[i]);
    assert(s.skip(i).drop_first() =~= s.skip(i + 1));
}

/// Positivity carries to the tail of the size list.
proof fn lemma_positive_drop(s: Seq<usize>)
    requires
        positive_sizes(s),
        s.len() > 0,
    ensures
        positive_sizes(s.drop_first()),
{
    assert(forall|j: int|
        0 <= j < s.drop_first().len() ==> #[trigger] s.drop_first()[j] == s[j + 1]);
}

/// A tuple has one digit per size.
proof fn lemma_tuple_at_len(s: Seq<usize>, n: int)
    ensures
        tuple_at(s, n).len() == s.len(),
    decreases s.len(),
{
    if s.len() > 0 {
        lemma_tuple_at_len(s.drop_first(), n / (s[0] as int));
    }
}

/// One unfolding of [`tuple_at`]: the first digit is `n` modulo the first
/// size, and the rest are the digits of the quotient.
proof fn lemma_tuple_at_unfold(s: Seq<usize>, n: int)
    requires
        s.len() > 0,
    ensures
        tuple_at(s, n).len() == s.len(),
        tuple_at(s, n)[0] == n % (s[0] as int),
        forall|j: int|
            1 <= j < s.len() ==> #[trigger] tuple_at(s, n)[j] == tuple_at(
                s.drop_first(),
                n / (s[0] as int),
            )[j - 1],
{
    let d = s[0] as int;
    let t = s.drop_first();
    lemma_tuple_at_len(t, n / d);
    assert(tuple_at(s, n) == seq![n % d] + tuple_at(t, n / d));
    assert forall|j: int| 1 <= j < s.len() implies #[trigger] tuple_at(s, n)[j] == tuple_at(
        t,
        n / d,
    )[j - 1] by {
        assert((seq![n % d] + tuple_at(t, n / d))[j] == tuple_at(t, n / d)[j - 1]);
    }
}

/// Every digit of a valid tuple is a valid index into its domain.
pub proof fn lemma_tuple_at_valid(s: Seq<usize>, n: int)
    requires
        positive_sizes(s),
        0 <= n < size_product(s),
    ensures
        tuple_at(s, n).len() == s.len(),
        forall|j: int| 0 <= j < s.len() ==> 0 <= #[trigger] tuple_at(s, n)[j] < s[j],
    decreases s.len(),
{
    lemma_tuple_at_len(s, n);
    if s.len() > 0 {
        let d = s[0] as int;
        let t = s.drop_first();
        lemma_positive_drop(s);
        lemma_tuple_at_unfold(s, n);
        assert(n / d < size_product(t)) by (nonlinear_arith)
            requires
                d >= 1,
                0 <= n,
                n < d * size_product(t),
        ;
        lemma_tuple_at_valid(t, n / d);
        assert forall|j: int| 0 <= j < s.len() implies 0 <= #[trigger] tuple_at(s, n)[j]
            < s[j] by {
            if j == 0 {
                assert(tuple_at(s, n)[0] == n % d);
            } else {
                assert(tuple_at(s, n)[j] == tuple_at(t, n / d)[j - 1]);
                assert(0 <= tuple_at(t, n / d)[j - 1] < t[j - 1]);
                assert(t[j - 1] == s[j]);
            }
        }
    }
}

/// The zeroth tuple is all zeros.
pub proof fn lemma_tuple_at_zero(s: Seq<usize>)
    requires
        positive_sizes(s),
    ensures
        tuple_at(s, 0).len() == s.len(),
        forall|j: int| 0 <= j < s.len() ==> #[trigger] tuple_at(s, 0)[j] == 0,
    decreases s.len(),
{
    lemma_tuple_at_len(s, 0);
    if s.len() > 0 {
        let d = s[0] as int;
        let t = s.drop_first();
        lemma_positive_drop(s);
        lemma_tuple_at_unfold(s, 0);
        assert(0int % d == 0 && 0int / d == 0);
        lemma_tuple_at_zero(t);
        assert forall|j: int| 0 <= j < s.len() implies #[trigger] tuple_at(s, 0)[j] == 0 by {
            if j >= 1 {
                assert(tuple_at(s, 0)[j] == tuple_at(t, 0)[j - 1]);
            }
        }
    }
}

/// Distinct positions in the enumeration carry distinct tuples: the odometer
/// never repeats itself.
pub proof fn lemma_tuple_at_injective(s: Seq<usize>, m: int, n: int)
    requires
        positive_sizes(s),
        0 <= m < size_product(s),
        0 <= n < size_product(s),
        tuple_at(s, m) == tuple_at(s, n),
    ensures
        m == n,
    decreases s.len(),
{
    if s.len() == 0 {
        assert(size_product(s) == 1);
    } else {
        let d = s[0] as int;
        let t = s.drop_first();
        lemma_positive_drop(s);
        lemma_tuple_at_unfold(s, m);
        lemma_tuple_at_unfold(s, n);
        assert(m % d == n % d);
        assert(m / d < size_product(t)) by (nonlinear_arith)
            requires
                d >= 1,
                0 <= m,
                m < d * size_product(t),
        ;
        assert(n / d < size_product(t)) by (nonlinear_arith)
            requires
                d >= 1,
                0 <= n,
                n < d * size_product(t),
        ;
        assert(tuple_at(t, m / d) =~= tuple_at(t, n / d)) by {
            lemma_tuple_at_len(t, m / d);
            lemma_tuple_at_len(t, n / d);
            assert forall|j: int| 0 <= j < t.len() implies #[trigger] tuple_at(t, m / d)[j]
                == tuple_at(t, n / d)[j] by {
                assert(tuple_at(s, m)[j + 1] == tuple_at(t, m / d)[j]);
                assert(tuple_at(s, n)[j + 1] == tuple_at(t, n / d)[j]);
            }
        }
        lemma_tuple_at_injective(t, m / d, n / d);
        lemma_fundamental_div_mod(m, d);
        lemma_fundamental_div_mod(n, d);
    }
}

/// Every valid tuple appears in the enumeration: the odometer misses
/// nothing.
pub proof fn lemma_tuple_at_complete(s: Seq<usize>, t: Seq<int>)
    requires
        positive_sizes(s),
        t.len() == s.len(),
        forall|j: int| 0 <= j < t.len() ==> 0 <= #[trigger] t[j] < s[j],
    ensures
        exists|n: int| 0 <= n < size_product(s) && tuple_at(s, n) == t,
    decreases s.len(),
{
    if s.len() == 0 {
        assert(tuple_at(s, 0) =~= t);
        assert(0 <= 0 < size_product(s) && tuple_at(s, 0) == t);
    } else {
        let d = s[0] as int;
        let rest = s.drop_first();
        lemma_positive_drop(s);
        let tt = t.drop_first();
        assert(forall|j: int| 0 <= j < tt.len() ==> #[trigger] tt[j] == t[j + 1]);
        assert(forall|j: int| 0 <= j < rest.len() ==> #[trigger] rest[j] == s[j + 1]);
        assert(forall|j: int| 0 <= j < tt.len() ==> 0 <= #[trigger] tt[j] < rest[j]);
        lemma_tuple_at_complete(rest, tt);
        let m = choose|m: int| 0 <= m < size_product(rest) && tuple_at(rest, m) == tt;
        let n = t[0] + m * d;
        lemma_fundamental_div_mod_converse(n, d, m, t[0]);
        assert(n < size_product(s)) by (nonlinear_arith)
            requires
                d >= 1,
                0 <= t[0] < d,
                0 <= m,
                m < size_product(rest),
                n == t[0] + m * d,
                size_product(s) == d * size_product(rest),
        ;
        lemma_tuple_at_unfold(s, n);
        assert(n % d == t[0]);
        assert(n / d == m);
        assert(tuple_at(s, n) =~= t) by {
            assert forall|j: int| 0 <= j < t.len() implies tuple_at(s, n)[j] == t[j] by {
                if j >= 1 {
                    assert(tuple_at(s, n)[j] == tuple_at(rest, m)[j - 1]);
                    assert(tuple_at(rest, m)[j - 1] == tt[j - 1]);
                }
            }
        }
        assert(0 <= n < size_product(s) && tuple_at(s, n) == t);
    }
}

/// How one odometer step changes the digits: the carry run `[0, i)` resets
/// to zero, digit `i` increments, and everything above stays.
proof fn lemma_tuple_at_step(s: Seq<usize>, n: int, i: int)
    requires
        positive_sizes(s),
        0 <= n < size_product(s),
        0 <= i < s.len(),
        forall|j: int| 0 <= j < i ==> #[trigger] tuple_at(s, n)[j] == s[j] - 1,
        tuple_at(s, n)[i] + 1 < s[i],
    ensures
        tuple_at(s, n + 1).len() == s.len(),
        forall|j: int| 0 <= j < i ==> #[trigger] tuple_at(s, n + 1)[j] == 0,
        tuple_at(s, n + 1)[i] == tuple_at(s, n)[i] + 1,
        forall|j: int| i < j < s.len() ==> #[trigger] tuple_at(s, n + 1)[j] == tuple_at(s, n)[j],
    decreases s.len(),
{
    let d = s[0] as int;
    let t = s.drop_first();
    lemma_positive_drop(s);
    lemma_tuple_at_unfold(s, n);
    lemma_tuple_at_unfold(s, n + 1);
    lemma_fundamental_div_mod(n, d);
    if i == 0 {
        // no carry: the first digit has room.
        assert(n % d + 1 < d);
        assert(n + 1 == (n / d) * d + (n % d + 1)) by (nonlinear_arith)
            requires
                n == d * (n / d) + n % d,
        ;
        lemma_fundamental_div_mod_converse(n + 1, d, n / d, n % d + 1);
        assert forall|j: int| 0 < j < s.len() implies #[trigger] tuple_at(s, n + 1)[j] == tuple_at(
            s,
            n,
        )[j] by {
            assert(tuple_at(s, n + 1)[j] == tuple_at(t, (n + 1) / d)[j - 1]);
            assert(tuple_at(s, n)[j] == tuple_at(t, n / d)[j - 1]);
        }
    } else {
        // the first digit is maximal: it wraps to zero and carries.
        assert(tuple_at(s, n)[0] == n % d);
        assert(n % d == d - 1);
        assert(n + 1 == (n / d + 1) * d + 0) by (nonlinear_arith)
            requires
                n == d * (n / d) + n % d,
                n % d == d - 1,
        ;
        lemma_fundamental_div_mod_converse(n + 1, d, n / d + 1, 0);
        assert(n / d < size_product(t)) by (nonlinear_arith)
            requires
                d >= 1,
                0 <= n,
                n < d * size_product(t),
        ;
        assert forall|j: int| 0 <= j < i - 1 implies #[trigger] tuple_at(t, n / d)[j] == t[j]
            - 1 by {
            assert(tuple_at(s, n)[j + 1] == tuple_at(t, n / d)[j]);
            assert(t[j] == s[j + 1]);
            assert(tuple_at(s, n)[j + 1] == s[j + 1] - 1);
        }
        assert(tuple_at(t, n / d)[i - 1] + 1 < t[i - 1]) by {
            assert(tuple_at(s, n)[i] == tuple_at(t, n / d)[i - 1]);
            assert(t[i - 1] == s[i]);
        }
        lemma_tuple_at_step(t, n / d, i - 1);
        assert forall|j: int| 0 <= j < i implies #[trigger] tuple_at(s, n + 1)[j] == 0 by {
            if j == 0 {
                assert(tuple_at(s, n + 1)[0] == (n + 1) % d);
            } else {
                assert(tuple_at(s, n + 1)[j] == tuple_at(t, n / d + 1)[j - 1]);
            }
        }
        assert(tuple_at(s, n + 1)[i] == tuple_at(s, n)[i] + 1) by {
            assert(tuple_at(s, n + 1)[i] == tuple_at(t, n / d + 1)[i - 1]);
            assert(tuple_at(s, n)[i] == tuple_at(t, n / d)[i - 1]);
        }
        assert forall|j: int| i < j < s.len() implies #[trigger] tuple_at(s, n + 1)[j] == tuple_at(
            s,
            n,
        )[j] by {
            assert(tuple_at(s, n + 1)[j] == tuple_at(t, n / d + 1)[j - 1]);
            assert(tuple_at(s, n)[j] == tuple_at(t, n / d)[j - 1]);
        }
    }
}

/// When every digit is maximal the odometer is at its last tuple.
proof fn lemma_tuple_at_last(s: Seq<usize>, n: int)
    requires
        positive_sizes(s),
        0 <= n < size_product(s),
        forall|j: int| 0 <= j < s.len() ==> #[trigger] tuple_at(s, n)[j] == s[j] - 1,
    ensures
        n == size_product(s) - 1,
    decreases s.len(),
{
    if s.len() == 0 {
        assert(size_product(s) == 1);
    } else {
        let d = s[0] as int;
        let t = s.drop_first();
        lemma_positive_drop(s);
        lemma_tuple_at_unfold(s, n);
        assert(tuple_at(s, n)[0] == s[0] - 1);
        assert(n % d == d - 1);
        assert(n / d < size_product(t)) by (nonlinear_arith)
            requires
                d >= 1,
                0 <= n,
                n < d * size_product(t),
        ;
        assert forall|j: int| 0 <= j < t.len() implies #[trigger] tuple_at(t, n / d)[j] == t[j]
            - 1 by {
            assert(tuple_at(s, n)[j + 1] == tuple_at(t, n / d)[j]);
            assert(t[j] == s[j + 1]);
            assert(tuple_at(s, n)[j + 1] == s[j + 1] - 1);
        }
        lemma_tuple_at_last(t, n / d);
        lemma_fundamental_div_mod(n, d);
        assert(n == d * size_product(t) - 1) by (nonlinear_arith)
            requires
                n == d * (n / d) + n % d,
                n / d == size_product(t) - 1,
                n % d == d - 1,
        ;
    }
}

/// The mixed-radix odometer over a fixed list of domain sizes: emits every
/// index tuple exactly once, in the order in which the first position varies
/// fastest, then stops.
pub struct __StatePermutation {
    /// The digits of the tuple to emit next.
    idx: Vec<usize>,
    /// The domain sizes: position `j` counts `0` to `end[j] - 1`.
    end: Vec<usize>,
    /// How many tuples are still to be emitted.
    remaining: usize,
}

impl __StatePermutation {
    /// The domain sizes this odometer was built over.
    pub closed spec fn spec_sizes(self) -> Seq<usize> {
        self.end@
    }

    /// How many tuples are still to be emitted.
    pub closed spec fn spec_remaining(self) -> int {
        self.remaining as int
    }

    /// How many tuples have been emitted so far.
    pub open spec fn spec_emitted(self) -> int {
        size_product(self.spec_sizes()) - self.spec_remaining()
    }

    /// The generator's invariant: the sizes are positive, the count of
    /// remaining tuples never exceeds the total, and while tuples remain,
    /// the digits are exactly those of the next position to emit.
    pub closed spec fn wf(self) -> bool {
        &&& positive_sizes(self.end@)
        &&& self.idx@.len() == self.end@.len()
        &&& self.remaining <= size_product(self.end@)
        &&& self.remaining > 0 ==> to_ints(self.idx@) == tuple_at(self.end@, self.spec_emitted())
    }

    /// Builds the odometer over the given positive domain sizes; it will
    /// emit exactly the product of the sizes many tuples.
    pub fn new(end: Vec<usize>) -> (r: __StatePermutation)
        requires
            positive_sizes(end@),
            size_product(end@) <= usize::MAX,
        ensures
            r.wf(),
            r.spec_sizes() == end@,
            r.spec_remaining() == size_product(end@),
    {
        let k = end.len();
        let ghost s = end@;
        let mut product: usize = 1;
        let mut i: usize = 0;
        proof {
            assert(s.skip(0) =~= s);
        }
        while i < k
            invariant
                k == s.len(),
                end@ == s,
                positive_sizes(s),
                size_product(s) <= usize::MAX,
                i <= k,
                (product as nat) * size_product(s.skip(i as int)) == size_product(s),
            decreases k - i,
        {
            proof {
                lemma_size_product_skip(s, i as int);
                assert(positive_sizes(s.skip(i + 1))) by {
                    assert(forall|j: int|
                        0 <= j < s.skip(i + 1).len() ==> #[trigger] s.skip(i + 1)[j] == s[j + i
                            + 1]);
                }
                lemma_size_product_positive(s.skip(i + 1));
                assert((product as nat) * ((s[i as int] as nat) * size_product(
                    s.skip(i as int + 1),
                )) == size_product(s) ==> ((product * s[i as int]) as nat) * size_product(
                    s.skip(i as int + 1),
                ) == size_product(s) && (product as nat) * (s[i as int] as nat) <= size_product(
                    s,
                )) by (nonlinear_arith)
                    requires
                        size_product(s.skip(i as int + 1)) >= 1,
                        product >= 0,
                ;
            }
            product = product * end[i];
            i = i + 1;
        }
        proof {
            assert(s.skip(k as int) =~= Seq::<usize>::empty());
            assert(size_product(s.skip(k as int)) == 1);
        }
        let mut idx: Vec<usize> = Vec::new();
        let mut j: usize = 0;
        while j < k
            invariant
                j <= k,
                idx@.len() == j,
                forall|p: int| 0 <= p < j ==> #[trigger] idx@[p] == 0,
            decreases k - j,
        {
            idx.push(0);
            j = j + 1;
        }
        proof {
            assert(i == k);
            assert((product as nat) * size_product(s.skip(i as int)) == size_product(s));
            assert(s.skip(i as int) =~= Seq::<usize>::empty());
            assert(size_product(s.skip(i as int)) == 1);
            assert(product as nat == size_product(s)) by (nonlinear_arith)
                requires
                    (product as nat) * size_product(s.skip(i as int)) == size_product(s),
                    size_product(s.skip(i as int)) == 1,
            ;
            if product > 0 {
                lemma_tuple_at_zero(s);
                assert forall|p: int| 0 <= p < k implies to_ints(idx@)[p] == tuple_at(
                    s,
                    0,
                )[p] by {
                    assert(to_ints(idx@)[p] == idx@[p] as int);
                }
                assert(to_ints(idx@) =~= tuple_at(s, 0));
            }
        }
        __StatePermutation { idx, end, remaining: product }
    }

    /// How many tuples are still to be emitted.
    pub fn len(&self) -> (r: usize)
        ensures
            r == self.spec_remaining(),
    {
        self.remaining
    }

    /// Emits the next tuple, or `None` once every combination has been
    /// emitted. The `n`-th emitted tuple is [`tuple_at`] of `n`.
    pub fn next(&mut self) -> (r: Option<Vec<usize>>)
        requires
            old(self).wf(),
        ensures
            final(self).wf(),
            final(self).spec_sizes() == old(self).spec_sizes(),
            old(self).spec_remaining() == 0 ==> r is None && *final(self) == *old(self),
            old(self).spec_remaining() > 0 ==> final(self).spec_remaining() == old(
                self,
            ).spec_remaining() - 1 && (r matches Some(t) && to_ints(t@) == tuple_at(
                old(self).spec_sizes(),
                old(self).spec_emitted(),
            )),
    {
        if self.remaining == 0 {
            return None;
        }
        let ghost s = self.end@;
        let ghost n = self.spec_emitted();
        proof {
            lemma_size_product_positive(s);
            lemma_tuple_at_valid(s, n);
        }
        let k = self.end.len();
        // copy the current digits: this is the tuple to emit.
        let mut item: Vec<usize> = Vec::new();
        let mut c: usize = 0;
        while c < k
            invariant
                k == self.idx@.len(),
                c <= k,
                item@ == self.idx@.take(c as int),
            decreases k - c,
        {
            item.push(self.idx[c]);
            proof {
                assert(item@ =~= self.idx@.take(c + 1));
            }
            c = c + 1;
        }
        proof {
            assert(self.idx@.take(k as int) =~= self.idx@);
        }
        self.remaining = self.remaining - 1;
        // advance the digits with carry.
        let mut i: usize = 0;
        let mut done = false;
        while !done && i < k
            invariant
                k == s.len(),
                self.end@ == s,
                self.idx@.len() == k,
                old(self).idx@.len() == k,
                tuple_at(s, n).len() == k,
                positive_sizes(s),
                self.remaining == old(self).remaining - 1,
                old(self).remaining >= 1,
                old(self).remaining <= size_product(s),
                n == size_product(s) - old(self).remaining,
                to_ints(old(self).idx@) == tuple_at(s, n),
                forall|j: int| 0 <= j < k ==> 0 <= #[trigger] tuple_at(s, n)[j] < s[j],
                item@ == old(self).idx@,
                i <= k,
                !done ==> forall|j: int| 0 <= j < i ==> #[trigger] self.idx@[j] == 0,
                !done ==> forall|j: int| i <= j < k ==> #[trigger] self.idx@[j] == old(
                    self,
                ).idx@[j],
                done ==> i < k,
                done ==> forall|j: int| 0 <= j < i ==> #[trigger] self.idx@[j] == 0,
                done ==> self.idx@[i as int] == old(self).idx@[i as int] + 1,
                done ==> old(self).idx@[i as int] + 2 <= s[i as int],
                done ==> forall|j: int| i < j < k ==> #[trigger] self.idx@[j] == old(
                    self,
                ).idx@[j],
                forall|j: int| 0 <= j < i ==> #[trigger] old(self).idx@[j] == s[j] - 1,
            decreases k - i + (if done {
                0int
            } else {
                1int
            }),
        {
            proof {
                assert(to_ints(old(self).idx@)[i as int] == old(self).idx@[i as int] as int);
                assert(self.idx@[i as int] == old(self).idx@[i as int]);
                assert(old(self).idx@[i as int] as int == tuple_at(s, n)[i as int]);
                assert(old(self).idx@[i as int] < s[i as int]);
            }
            if self.idx[i] + 1 < self.end[i] {
                let v = self.idx[i];
                self.idx.set(i, v + 1);
                done = true;
            } else {
                self.idx.set(i, 0);
                i = i + 1;
            }
        }
        proof {
            if done {
                assert forall|j: int| 0 <= j < i implies #[trigger] tuple_at(s, n)[j] == s[j]
                    - 1 by {
                    assert(to_ints(old(self).idx@)[j] == old(self).idx@[j] as int);
                }
                assert(tuple_at(s, n)[i as int] + 1 < s[i as int]) by {
                    assert(to_ints(old(self).idx@)[i as int] == old(self).idx@[i as int] as int);
                }
                lemma_tuple_at_step(s, n, i as int);
                assert forall|j: int| 0 <= j < k implies to_ints(self.idx@)[j] == tuple_at(
                    s,
                    n + 1,
                )[j] by {
                    assert(to_ints(self.idx@)[j] == self.idx@[j] as int);
                    assert(to_ints(old(self).idx@)[j] == old(self).idx@[j] as int);
                }
                assert(to_ints(self.idx@) =~= tuple_at(s, n + 1));
            } else {
                // every digit was maximal: this was the last tuple.
                assert forall|j: int| 0 <= j < k implies #[trigger] tuple_at(s, n)[j] == s[j]
                    - 1 by {
                    assert(to_ints(old(self).idx@)[j] == old(self).idx@[j] as int);
                }
                lemma_tuple_at_last(s, n);
                assert(self.remaining == 0);
            }
            assert(to_ints(item@) == tuple_at(s, n));
        }
        Some(item)
    }
}

} // verus!
