//! Replacing a byte pattern in a buffer.

use vstd::prelude::*;

verus! {

/// Whether `needle` stands in `hay` at index `i`.
pub open spec fn matches_at(hay: Seq<u8>, needle: Seq<u8>, i: int) -> bool {
    0 <= i && i + needle.len() <= hay.len() && hay.subrange(i, i + needle.len()) == needle
}

/// The first index at or after `from` at which `needle` stands in `hay`,
/// or -1 if there is none.
pub open spec fn first_match(hay: Seq<u8>, needle: Seq<u8>, from: int) -> int
    decreases hay.len() + 1 - from,
{
    if from < 0 || from + needle.len() > hay.len() {
        -1
    } else if matches_at(hay, needle, from) {
        from
    } else {
        first_match(hay, needle, from + 1)
    }
}

/// The distance from the start of one occurrence to the place where the
/// search for the next begins: the length of the needle, and 1 for an empty
/// needle.
pub open spec fn stride(needle: Seq<u8>) -> int {
    if needle.len() == 0 {
        1
    } else {
        needle.len() as int
    }
}

/// The occurrences of `needle` in `hay` that do not overlap, found from
/// `from` on and from left to right: the first one, then the first one
/// behind it, and so on. An empty needle occurs at every index up to the
/// length of `hay`.
pub open spec fn occurrences(hay: Seq<u8>, needle: Seq<u8>, from: int) -> Seq<int>
    decreases hay.len() + 1 - from,
{
    let p = first_match(hay, needle, from);
    if from < 0 || p < from || p + needle.len() > hay.len() {
        Seq::empty()
    } else {
        seq![p] + occurrences(hay, needle, p + stride(needle))
    }
}

/// Indices as integers.
pub open spec fn as_ints(offsets: Seq<usize>) -> Seq<int> {
    offsets.map_values(|x: usize| x as int)
}

/// Whether index `p` lies in one of the first `k` stretches of length `n`
/// that start at `offsets`.
pub open spec fn covered(offsets: Seq<usize>, n: int, k: int, p: int) -> bool {
    exists|i: int| 0 <= i < k && i < offsets.len() && offsets[i] <= p < #[trigger] offsets[i] + n
}

/// [`first_match`] finds an occurrence, and the first at or after `from`.
pub proof fn lemma_first_match(hay: Seq<u8>, needle: Seq<u8>, from: int)
    requires
        0 <= from,
    ensures
        first_match(hay, needle, from) == -1 || (from <= first_match(hay, needle, from)
            && matches_at(hay, needle, first_match(hay, needle, from))),
        forall|i: int|
            from <= i && (i < first_match(hay, needle, from) || first_match(hay, needle, from) == -1)
                ==> !matches_at(hay, needle, i),
    decreases hay.len() + 1 - from,
{
    if from + needle.len() <= hay.len() && !matches_at(hay, needle, from) {
        lemma_first_match(hay, needle, from + 1);
    }
}

/// Every occurrence found is one, none starts before `from`, and each
/// starts at least a stride behind the one before it.
pub proof fn lemma_occurrences(hay: Seq<u8>, needle: Seq<u8>, from: int)
    requires
        0 <= from,
    ensures
        forall|k: int|
            0 <= k < occurrences(hay, needle, from).len() ==> from <= #[trigger] occurrences(
                hay,
                needle,
                from,
            )[k] && matches_at(hay, needle, occurrences(hay, needle, from)[k]),
        forall|i: int, j: int|
            0 <= i < j < occurrences(hay, needle, from).len() ==> #[trigger] occurrences(
                hay,
                needle,
                from,
            )[i] + stride(needle) <= #[trigger] occurrences(hay, needle, from)[j],
    decreases hay.len() + 1 - from,
{
    let p = first_match(hay, needle, from);
    lemma_first_match(hay, needle, from);
    if !(p < from || p + needle.len() > hay.len()) {
        let rest = occurrences(hay, needle, p + stride(needle));
        lemma_occurrences(hay, needle, p + stride(needle));
        let all = occurrences(hay, needle, from);
        assert(all =~= seq![p] + rest);
        assert forall|k: int| 0 <= k < all.len() implies from <= #[trigger] all[k] && matches_at(
            hay,
            needle,
            all[k],
        ) by {
            if k > 0 {
                assert(all[k] == rest[k - 1]);
            }
        }
        assert forall|i: int, j: int| 0 <= i < j < all.len() implies #[trigger] all[i] + stride(
            needle,
        ) <= #[trigger] all[j] by {
            assert(all[j] == rest[j - 1]);
            if i > 0 {
                assert(all[i] == rest[i - 1]);
            }
        }
    }
}

/// No occurrence is missed but for overlap: wherever `needle` stands in
/// `hay` at or after `from`, an occurrence that was found starts at most
/// there and less than a stride before.
pub proof fn lemma_occurrences_complete(hay: Seq<u8>, needle: Seq<u8>, from: int, p: int)
    requires
        0 <= from <= p,
        matches_at(hay, needle, p),
    ensures
        exists|k: int|
            0 <= k < occurrences(hay, needle, from).len() && #[trigger] occurrences(
                hay,
                needle,
                from,
            )[k] <= p < occurrences(hay, needle, from)[k] + stride(needle),
    decreases hay.len() + 1 - from,
{
    let first = first_match(hay, needle, from);
    lemma_first_match(hay, needle, from);
    let all = occurrences(hay, needle, from);
    assert(first != -1 && first <= p);
    if p < first + stride(needle) {
        assert(all[0] == first);
    } else {
        lemma_occurrences_complete(hay, needle, first + stride(needle), p);
        let rest = occurrences(hay, needle, first + stride(needle));
        let k = choose|k: int| 0 <= k < rest.len() && #[trigger] rest[k] <= p < rest[k] + stride(needle);
        assert(all =~= seq![first] + rest);
        assert(all[k + 1] == rest[k]);
    }
}

/// Calls `memchr::memmem::find_iter` and collects what the iterator
/// yields. The contract states what the crate documents and its iterator
/// does: the result holds the start of every occurrence of `needle` in
/// `hay` that does not overlap an earlier one, in ascending order; the
/// search for the next occurrence begins where the last one ends, and one
/// byte on for an empty needle.
#[verifier::external_body]
fn find_all(hay: &[u8], needle: &[u8]) -> (offsets: Vec<usize>)
    ensures
        as_ints(offsets@) == occurrences(hay@, needle@, 0),
{
    memchr::memmem::find_iter(hay, needle).collect()
}

fn overwrite(buf: &mut [u8], at: usize, to: &[u8])
    requires
        at + to@.len() <= old(buf)@.len(),
    ensures
        final(buf)@.len() == old(buf)@.len(),
        forall|p: int|
            0 <= p < old(buf)@.len() ==> #[trigger] final(buf)@[p] == if at <= p < at + to@.len() {
                to@[p - at]
            } else {
                old(buf)@[p]
            },
{
    let n = to.len();
    let len = buf.len();
    let mut j: usize = 0;
    while j < n
        invariant
            j <= n,
            len == buf@.len(),
            n == to@.len(),
            at + n <= old(buf)@.len(),
            buf@.len() == old(buf)@.len(),
            forall|p: int|
                0 <= p < old(buf)@.len() ==> #[trigger] buf@[p] == if at <= p < at + j {
                    to@[p - at]
                } else {
                    old(buf)@[p]
                },
        decreases n - j,
    {
        buf[at + j] = to[j];
        j = j + 1;
    }
}

/// Buffers in which a byte pattern can be replaced in place.
pub trait MutBytesExt {
    /// The bytes of the buffer.
    spec fn bytes(&self) -> Seq<u8>;

    /// Overwrites with `to` every occurrence of `from` that does not
    /// overlap an earlier one, and returns where they start, in ascending
    /// order. The buffer keeps its length and every byte outside the
    /// occurrences.
    fn patch(&mut self, from: &[u8], to: &[u8]) -> (offsets: Vec<usize>)
        requires
            from@.len() == to@.len(),
        ensures
            as_ints(offsets@) == occurrences(old(self).bytes(), from@, 0),
            final(self).bytes().len() == old(self).bytes().len(),
            forall|k: int|
                0 <= k < offsets@.len() ==> matches_at(
                    final(self).bytes(),
                    to@,
                    #[trigger] offsets@[k] as int,
                ),
            forall|p: int|
                0 <= p < old(self).bytes().len() && !covered(
                    offsets@,
                    to@.len() as int,
                    offsets@.len() as int,
                    p,
                ) ==> #[trigger] final(self).bytes()[p] == old(self).bytes()[p],
            offsets@.len() == 0 ==> final(self).bytes() == old(self).bytes(),
    ;
}

impl MutBytesExt for [u8] {
    open spec fn bytes(&self) -> Seq<u8> {
        self@
    }

    fn patch(&mut self, from: &[u8], to: &[u8]) -> (offsets: Vec<usize>) {
        let offsets = find_all(self, from);
        let n = to.len();
        proof {
            lemma_occurrences(old(self)@, from@, 0);
            assert forall|i: int| 0 <= i < offsets@.len() implies #[trigger] offsets@[i] + n <= old(
                self,
            )@.len() by {
                assert(as_ints(offsets@)[i] == offsets@[i]);
            }
            assert forall|i: int, j: int| 0 <= i < j < offsets@.len() implies #[trigger] offsets@[i]
                + n <= #[trigger] offsets@[j] by {
                assert(as_ints(offsets@)[i] == offsets@[i]);
                assert(as_ints(offsets@)[j] == offsets@[j]);
            }
        }
        let mut k: usize = 0;
        while k < offsets.len()
            invariant
                k <= offsets@.len(),
                n == to@.len(),
                from@.len() == to@.len(),
                self@.len() == old(self)@.len(),
                forall|i: int|
                    0 <= i < offsets@.len() ==> #[trigger] offsets@[i] + n <= old(self)@.len(),
                forall|i: int, j: int|
                    0 <= i < j < offsets@.len() ==> #[trigger] offsets@[i] + n
                        <= #[trigger] offsets@[j],
                forall|i: int, j: int|
                    0 <= i < k && 0 <= j < n ==> self@[#[trigger] offsets@[i] + j] == #[trigger] to@[j],
                forall|p: int|
                    0 <= p < old(self)@.len() && !covered(offsets@, n as int, k as int, p)
                        ==> #[trigger] self@[p] == old(self)@[p],
            decreases offsets@.len() - k,
        {
            let at = offsets[k];
            let ghost before = self@;
            overwrite(self, at, to);
            proof {
                assert forall|i: int, j: int| 0 <= i < k + 1 && 0 <= j < n implies self@[#[trigger] offsets@[i]
                    + j] == #[trigger] to@[j] by {
                    if i < k {
                        assert(offsets@[i] + n <= offsets@[k as int]);
                        assert(before[offsets@[i] + j] == to@[j]);
                    }
                }
                assert forall|p: int|
                    0 <= p < old(self)@.len() && !covered(
                        offsets@,
                        n as int,
                        k + 1,
                        p,
                    ) implies #[trigger] self@[p] == old(self)@[p] by {
                    assert(!(offsets@[k as int] <= p < offsets@[k as int] + n));
                    assert(!covered(offsets@, n as int, k as int, p)) by {
                        if covered(offsets@, n as int, k as int, p) {
                            let i = choose|i: int|
                                0 <= i < k && i < offsets@.len() && offsets@[i] <= p
                                    < #[trigger] offsets@[i] + n;
                            assert(offsets@[i] <= p < offsets@[i] + n);
                        }
                    }
                }
            }
            k = k + 1;
        }
        proof {
            assert forall|k: int| 0 <= k < offsets@.len() implies matches_at(
                self@,
                to@,
                #[trigger] offsets@[k] as int,
            ) by {
                let at = offsets@[k] as int;
                assert forall|j: int| 0 <= j < n implies self@.subrange(at, at + n)[j] == to@[j] by {
                    assert(self@[offsets@[k] + j] == to@[j]);
                }
                assert(self@.subrange(at, at + n) =~= to@);
            }
            if offsets@.len() == 0 {
                assert forall|p: int| 0 <= p < self@.len() implies self@[p] == old(self)@[p] by {
                    assert(!covered(offsets@, n as int, 0, p));
                }
                assert(self@ =~= old(self)@);
            }
        }
        offsets
    }
}

impl MutBytesExt for Vec<u8> {
    open spec fn bytes(&self) -> Seq<u8> {
        self@
    }

    fn patch(&mut self, from: &[u8], to: &[u8]) -> (offsets: Vec<usize>) {
        self.as_mut_slice().patch(from, to)
    }
}

} // verus!
