//! Registers of a call frame and contiguous spans of them.

use vstd::prelude::*;

verus! {

/// An index into the operand storage of a call frame.
///
/// A non-negative index names a mutable slot of the frame; a negative index
/// names an entry of the function's table of constants.
#[derive(Debug, Copy, Clone, PartialEq, Eq, PartialOrd, Ord, Structural)]
pub struct Register(i16);

impl View for Register {
    type V = int;

    closed spec fn view(&self) -> int {
        self.0 as int
    }
}

impl Register {
    /// The register with the given index.
    pub closed spec fn of_index(index: i16) -> Self {
        Register(index)
    }

    /// `of_index` gives the register whose index is the given one.
    pub broadcast proof fn lemma_of_index(index: i16)
        ensures
            (#[trigger] Self::of_index(index))@ == index,
    {
    }

    /// Two registers with the same index are the same register.
    pub proof fn lemma_index_determines(self, other: Self)
        requires
            self@ == other@,
        ensures
            self == other,
    {
    }

    /// Whether the register names a constant of the function rather than a slot of the frame.
    pub open spec fn spec_is_const(self) -> bool {
        self@ < 0
    }

    /// The index that follows `index`, wrapping from the largest to the smallest.
    pub open spec fn wrapping_succ(index: int) -> int {
        if index == i16::MAX {
            i16::MIN as int
        } else {
            index + 1
        }
    }

    /// The index that precedes `index`, wrapping from the smallest to the largest.
    pub open spec fn wrapping_pred(index: int) -> int {
        if index == i16::MIN {
            i16::MAX as int
        } else {
            index - 1
        }
    }

    /// Creates a [`Register`] from the given `i16` index. Every index is accepted.
    pub fn from_i16(index: i16) -> (r: Self)
        ensures
            r == Self::of_index(index),
            r@ == index,
    {
        Self(index)
    }

    /// Returns the index of the [`Register`] as `i16` value.
    pub fn to_i16(self) -> (r: i16)
        ensures
            r == self@,
    {
        self.0
    }

    /// Returns `true` if this [`Register`] refers to a function local constant value.
    pub fn is_const(self) -> (r: bool)
        ensures
            r == self.spec_is_const(),
            r <==> self@ < 0,
    {
        self.0 < 0
    }

    /// Returns the [`Register`] with the next contiguous index, wrapping on overflow.
    pub fn next(self) -> (r: Register)
        ensures
            r@ == Self::wrapping_succ(self@),
    {
        Self(self.0.wrapping_add(1))
    }

    /// Returns the [`Register`] with the previous contiguous index, wrapping on overflow.
    pub fn prev(self) -> (r: Register)
        ensures
            r@ == Self::wrapping_pred(self@),
    {
        Self(self.0.wrapping_sub(1))
    }
}

impl From<i16> for Register {
    /// The register with the given index.
    fn from(index: i16) -> (r: Self) {
        Self::from_i16(index)
    }
}

impl vstd::std_specs::convert::FromSpecImpl<i16> for Register {
    open spec fn obeys_from_spec() -> bool {
        true
    }

    open spec fn from_spec(index: i16) -> Self {
        Self::of_index(index)
    }
}

/// A register is a constant exactly if its index is negative; so the
/// register of index 0 is none, and the register of index -1 is one.
pub proof fn lemma_is_const_by_sign(index: i16)
    ensures
        Register::of_index(index).spec_is_const() <==> index < 0,
        !Register::of_index(0i16).spec_is_const(),
        Register::of_index(-1i16).spec_is_const(),
{
}

/// A span of contiguous [`Register`] indices, given by its first register.
///
/// The number of registers in the span is kept elsewhere and handed to
/// [`RegisterSpan::iter`] by the caller, who answers for it.
#[derive(Debug, Copy, Clone, PartialEq, Eq, PartialOrd, Ord, Structural)]
pub struct RegisterSpan(Register);

/// The indices `start, start + 1, ..` of a span of `len` registers.
pub open spec fn span_indices(start: int, len: nat) -> Seq<int> {
    Seq::new(len, |i: int| start + i)
}

impl RegisterSpan {
    /// The first register of the span.
    pub closed spec fn spec_head(self) -> Register {
        self.0
    }

    /// Returns the first register of the span.
    #[verifier::when_used_as_spec(spec_head)]
    pub fn head(self) -> (r: Register)
        ensures
            r == self.spec_head(),
    {
        self.0
    }

    /// Creates a new [`RegisterSpan`] starting with the given `start` [`Register`].
    pub fn new(start: Register) -> (r: Self)
        ensures
            r.head() == start,
    {
        Self(start)
    }

    /// Returns a [`RegisterSpanIter`] yielding the `len` registers of the span.
    ///
    /// The length must fit 16 signed bits, and so must the index one past the span.
    pub fn iter(self, len: usize) -> (r: RegisterSpanIter)
        requires
            len <= i16::MAX,
            self.head()@ + len <= i16::MAX,
        ensures
            r.wf(),
            r.front() == self.head()@,
            r.back() == self.head()@ + len,
            r@ == span_indices(self.head()@, len as nat),
    {
        RegisterSpanIter::new(self.0, len)
    }
}

/// An iterator over the contiguous registers of a span, open at both ends.
#[derive(Debug, Copy, Clone, PartialEq, Eq, PartialOrd, Ord, Structural)]
pub struct RegisterSpanIter {
    /// The next [`Register`] in the [`RegisterSpanIter`].
    next: Register,
    /// The register one past the last in the [`RegisterSpanIter`].
    last: Register,
}

impl View for RegisterSpanIter {
    type V = Seq<int>;

    /// The indices of the registers not yet yielded, in ascending order.
    open spec fn view(&self) -> Seq<int> {
        span_indices(self.front(), (self.back() - self.front()) as nat)
    }
}

impl RegisterSpanIter {
    /// The index of the register that the front end yields next.
    pub closed spec fn front(self) -> int {
        self.next@
    }

    /// The index one past the register that the back end yields next.
    pub closed spec fn back(self) -> int {
        self.last@
    }

    /// The front never lies behind the back.
    pub open spec fn wf(self) -> bool {
        self.front() <= self.back()
    }

    /// Creates a [`RegisterSpanIter`] from the given raw `start` and `end` [`Register`].
    pub fn from_raw_parts(start: Register, end: Register) -> (r: Self)
        requires
            start@ <= end@,
        ensures
            r.wf(),
            r.front() == start@,
            r.back() == end@,
            r@ == span_indices(start@, (end@ - start@) as nat),
    {
        Self { next: start, last: end }
    }

    /// Creates a new [`RegisterSpanIter`] for the given `start` [`Register`] and length `len`.
    ///
    /// The length must fit 16 signed bits, and so must the index one past the span.
    pub fn new(start: Register, len: usize) -> (r: Self)
        requires
            len <= i16::MAX,
            start@ + len <= i16::MAX,
        ensures
            r.wf(),
            r.front() == start@,
            r.back() == start@ + len,
            r@ == span_indices(start@, len as nat),
    {
        let len: i16 = len as i16;
        let last_index: i16 = start.to_i16() + len;
        let last = Register::from_i16(last_index);
        Self::from_raw_parts(start, last)
    }

    /// Yields the register at the front, if any is left, and steps past it.
    pub fn next(&mut self) -> (r: Option<Register>)
        requires
            old(self).wf(),
        ensures
            final(self).wf(),
            final(self).back() == old(self).back(),
            pulled(r) == yielded(old(self)@, false),
            final(self)@ == rest(old(self)@, false),
            r is None ==> *final(self) == *old(self),
            r is Some ==> final(self).front() == old(self).front() + 1,
    {
        if self.next.to_i16() == self.last.to_i16() {
            proof {
                self.next.lemma_index_determines(self.last);
            }
            return None;
        }
        let reg = self.next;
        self.next = self.next.next();
        assert(self@ =~= rest(old(self)@, false));
        Some(reg)
    }

    /// Yields the register at the back, if any is left, and steps before it.
    pub fn next_back(&mut self) -> (r: Option<Register>)
        requires
            old(self).wf(),
        ensures
            final(self).wf(),
            final(self).front() == old(self).front(),
            pulled(r) == yielded(old(self)@, true),
            final(self)@ == rest(old(self)@, true),
            r is None ==> *final(self) == *old(self),
            r is Some ==> final(self).back() == old(self).back() - 1,
    {
        if self.next.to_i16() == self.last.to_i16() {
            return None;
        }
        self.last = self.last.prev();
        assert(self@ =~= rest(old(self)@, true));
        Some(self.last)
    }

    /// Returns the number of registers that are left.
    pub fn len(&self) -> (r: usize)
        requires
            self.wf(),
        ensures
            r == self@.len(),
            r == self.back() - self.front(),
    {
        let next: i32 = self.next.to_i16() as i32;
        let last: i32 = self.last.to_i16() as i32;
        (last - next) as usize
    }
}

/// The index of the register that a pull gave, if it gave one.
pub open spec fn pulled(r: Option<Register>) -> Option<int> {
    match r {
        Some(reg) => Some(reg@),
        None => None,
    }
}

/// What one pull yields from the indices that are left: the first of them
/// at the front, the last of them at the back, nothing if none is left.
pub open spec fn yielded(left: Seq<int>, from_back: bool) -> Option<int> {
    if left.len() == 0 {
        None
    } else if from_back {
        Some(left.last())
    } else {
        Some(left.first())
    }
}

/// The indices that are left after one pull.
pub open spec fn rest(left: Seq<int>, from_back: bool) -> Seq<int> {
    if left.len() == 0 {
        left
    } else if from_back {
        left.drop_last()
    } else {
        left.drop_first()
    }
}

/// The indices that are left after a run of pulls, each made at the front
/// (`false`) or at the back (`true`).
pub open spec fn rest_after(left: Seq<int>, pulls: Seq<bool>) -> Seq<int>
    decreases pulls.len(),
{
    if pulls.len() == 0 {
        left
    } else {
        rest(rest_after(left, pulls.drop_last()), pulls.last())
    }
}

/// How many pulls of a run are made at the back.
pub open spec fn back_pulls(pulls: Seq<bool>) -> nat
    decreases pulls.len(),
{
    if pulls.len() == 0 {
        0
    } else if pulls.last() {
        back_pulls(pulls.drop_last()) + 1
    } else {
        back_pulls(pulls.drop_last())
    }
}

/// What pull number `k` of a run yields, counting from 0.
pub open spec fn yield_at(left: Seq<int>, pulls: Seq<bool>, k: int) -> Option<int> {
    yielded(rest_after(left, pulls.take(k)), pulls[k])
}

/// Between two points of a run the count of back pulls grows by at most the
/// number of pulls between them; the pull at the earlier point is counted
/// if it is made at the back and is not if it is made at the front.
proof fn lemma_back_pulls_between(pulls: Seq<bool>, i: int, j: int)
    requires
        0 <= i <= j <= pulls.len(),
    ensures
        back_pulls(pulls.take(i)) <= back_pulls(pulls.take(j)) <= back_pulls(pulls.take(i)) + (j
            - i),
        i < j && pulls[i] ==> back_pulls(pulls.take(j)) >= back_pulls(pulls.take(i)) + 1,
        i < j && !pulls[i] ==> back_pulls(pulls.take(j)) <= back_pulls(pulls.take(i)) + (j - i)
            - 1,
    decreases j - i,
{
    if i < j {
        assert(pulls.take(j).drop_last() =~= pulls.take(j - 1));
        assert(pulls.take(j).last() == pulls[j - 1]);
        lemma_back_pulls_between(pulls, i, j - 1);
    }
}

/// After `k` pulls on a span of `n` registers, `n - k` are left, and they
/// are the contiguous ones between those that the front and the back gave;
/// from `n` pulls on none is left.
pub proof fn lemma_rest_after_pulls(start: int, n: nat, pulls: Seq<bool>)
    ensures
        back_pulls(pulls) <= pulls.len(),
        pulls.len() <= n ==> rest_after(span_indices(start, n), pulls) == span_indices(
            start + pulls.len() - back_pulls(pulls),
            (n - pulls.len()) as nat,
        ),
        pulls.len() <= n ==> rest_after(span_indices(start, n), pulls).len() == n - pulls.len(),
        pulls.len() >= n ==> rest_after(span_indices(start, n), pulls).len() == 0,
    decreases pulls.len(),
{
    if pulls.len() > 0 {
        let before = pulls.drop_last();
        lemma_rest_after_pulls(start, n, before);
        let mid = rest_after(span_indices(start, n), before);
        if pulls.len() <= n {
            let first = start + before.len() - back_pulls(before);
            let count = (n - before.len()) as nat;
            assert(mid == span_indices(first, count));
            if pulls.last() {
                assert(mid.drop_last() =~= span_indices(first, (count - 1) as nat));
            } else {
                assert(mid.drop_first() =~= span_indices(first + 1, (count - 1) as nat));
            }
        }
    } else {
        assert(span_indices(start, n) =~= span_indices(start + 0 - 0, (n - 0) as nat));
    }
}

/// Pull number `k` on a span of `n` registers starting at `start` yields, as
/// long as `k < n`, the register after those the front gave before, or the
/// register before those the back gave before; from pull number `n` on both
/// ends yield nothing.
pub proof fn lemma_yield_at(start: int, n: nat, pulls: Seq<bool>, k: int)
    requires
        0 <= k < pulls.len(),
    ensures
        back_pulls(pulls.take(k)) <= k,
        k < n && !pulls[k] ==> yield_at(span_indices(start, n), pulls, k) == Some(
            start + k - back_pulls(pulls.take(k)),
        ),
        k < n && pulls[k] ==> yield_at(span_indices(start, n), pulls, k) == Some(
            start + n - 1 - back_pulls(pulls.take(k)),
        ),
        k >= n ==> yield_at(span_indices(start, n), pulls, k) is None,
{
    lemma_rest_after_pulls(start, n, pulls.take(k));
}

/// Forward iteration over a span of `n` registers starting at `start`
/// yields `start, start + 1, .., start + n - 1` in this order.
pub proof fn lemma_forward_order(start: int, n: nat, k: int)
    requires
        0 <= k < n,
    ensures
        yield_at(span_indices(start, n), Seq::new(n, |i: int| false), k) == Some(start + k),
{
    let pulls = Seq::new(n, |i: int| false);
    lemma_yield_at(start, n, pulls, k);
    lemma_all_front(pulls.take(k));
}

/// Backward iteration over a span of `n` registers starting at `start`
/// yields `start + n - 1, .., start + 1, start` in this order.
pub proof fn lemma_backward_order(start: int, n: nat, k: int)
    requires
        0 <= k < n,
    ensures
        yield_at(span_indices(start, n), Seq::new(n, |i: int| true), k) == Some(
            start + n - 1 - k,
        ),
{
    let pulls = Seq::new(n, |i: int| true);
    lemma_yield_at(start, n, pulls, k);
    lemma_all_back(pulls.take(k));
}

/// A run without a pull at the back counts none.
proof fn lemma_all_front(pulls: Seq<bool>)
    requires
        forall|i: int| 0 <= i < pulls.len() ==> !pulls[i],
    ensures
        back_pulls(pulls) == 0,
    decreases pulls.len(),
{
    if pulls.len() > 0 {
        lemma_all_front(pulls.drop_last());
    }
}

/// A run of pulls at the back counts them all.
proof fn lemma_all_back(pulls: Seq<bool>)
    requires
        forall|i: int| 0 <= i < pulls.len() ==> pulls[i],
    ensures
        back_pulls(pulls) == pulls.len(),
    decreases pulls.len(),
{
    if pulls.len() > 0 {
        lemma_all_back(pulls.drop_last());
    }
}

/// However pulls at the front and at the back are interleaved, no two of
/// the first `n` pulls on a span of `n` registers yield the same register.
pub proof fn lemma_pulls_never_overlap(start: int, n: nat, pulls: Seq<bool>, i: int, j: int)
    requires
        0 <= i < j < pulls.len(),
        j < n,
    ensures
        yield_at(span_indices(start, n), pulls, i) is Some,
        yield_at(span_indices(start, n), pulls, j) is Some,
        yield_at(span_indices(start, n), pulls, i) != yield_at(span_indices(start, n), pulls, j),
{
    lemma_yield_at(start, n, pulls, i);
    lemma_yield_at(start, n, pulls, j);
    lemma_back_pulls_between(pulls, i, j);
}

} // verus!
