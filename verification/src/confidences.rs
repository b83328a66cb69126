//! Word confidences, which the engine hands out as an array without a
//! length: the array ends at the first sentinel.

use vstd::prelude::*;

verus! {

/// The value that ends the engine's array. It is no confidence itself.
pub const SENTINEL: i32 = -1;

/// Whether `words` is what a sentinel-terminated array holds, given the
/// memory `native` that starts at the array's first element: everything
/// before the first sentinel, and nothing of what follows it. Where `native`
/// holds no sentinel, `words` is all of it.
pub open spec fn is_terminated_prefix(native: Seq<i32>, words: Seq<i32>) -> bool {
    &&& words.len() <= native.len()
    &&& words =~= native.take(words.len() as int)
    &&& forall|i: int| 0 <= i < words.len() ==> words[i] != SENTINEL
    &&& words.len() < native.len() ==> native[words.len() as int] == SENTINEL
}

/// A walk over the engine's array, one element at a time, for a caller that
/// can read a single element but does not know where the array ends. The
/// walk says after each element whether the next one is to be read.
pub struct ConfidenceScan {
    values: Vec<i32>,
    complete: bool,
}

impl ConfidenceScan {
    /// The elements taken so far.
    pub closed spec fn accepted(&self) -> Seq<i32> {
        self.values@
    }

    /// Whether the sentinel has been met.
    pub closed spec fn terminated(&self) -> bool {
        self.complete
    }

    /// A walk that has read nothing yet.
    pub fn new() -> (scan: Self)
        ensures
            scan.accepted() == Seq::<i32>::empty(),
            !scan.terminated(),
    {
        ConfidenceScan { values: Vec::new(), complete: false }
    }

    /// Whether the sentinel has been met.
    pub fn is_terminated(&self) -> (done: bool)
        ensures
            done == self.terminated(),
    {
        self.complete
    }

    /// The number of elements taken, which is the index of the element to
    /// read next.
    pub fn len(&self) -> (n: usize)
        ensures
            n == self.accepted().len(),
    {
        self.values.len()
    }

    /// Takes the element at index `len()`. The sentinel ends the walk and is
    /// not kept; whatever is offered after it is ignored. Returns whether the
    /// next element is to be read.
    pub fn accept(&mut self, value: i32) -> (more: bool)
        ensures
            more == (!old(self).terminated() && value != SENTINEL),
            final(self).terminated() == !more,
            final(self).accepted() == if more {
                old(self).accepted().push(value)
            } else {
                old(self).accepted()
            },
    {
        if self.complete {
            return false;
        }
        if value == SENTINEL {
            self.complete = true;
            return false;
        }
        self.values.push(value);
        true
    }

    /// The confidences that the walk has taken.
    pub fn finish(self) -> (confidences: AllWordConfidences)
        ensures
            confidences@ == self.accepted(),
    {
        AllWordConfidences { values: self.values }
    }
}

/// The confidence of each recognised word, in percent. The length is found
/// once, when the value is made, and kept.
pub struct AllWordConfidences {
    values: Vec<i32>,
}

impl View for AllWordConfidences {
    type V = Seq<i32>;

    closed spec fn view(&self) -> Seq<i32> {
        self.values@
    }
}

impl AllWordConfidences {
    /// Reads the array that starts `native`, up to its sentinel.
    pub fn new(native: &[i32]) -> (confidences: Self)
        ensures
            is_terminated_prefix(native@, confidences@),
    {
        let mut scan = ConfidenceScan::new();
        let mut more = true;
        while more && scan.len() < native.len()
            invariant
                scan.accepted().len() <= native@.len(),
                scan.accepted() =~= native@.take(scan.accepted().len() as int),
                forall|i: int| 0 <= i < scan.accepted().len() ==> native@[i] != SENTINEL,
                more == !scan.terminated(),
                !more ==> scan.accepted().len() < native@.len() && native@[scan.accepted().len() as int]
                    == SENTINEL,
            decreases native@.len() - scan.accepted().len() + if more { 1int } else { 0int },
        {
            let index = scan.len();
            more = scan.accept(native[index]);
        }
        scan.finish()
    }

    /// The number of words.
    pub fn len(&self) -> (n: usize)
        ensures
            n == self@.len(),
    {
        self.values.len()
    }

    /// The confidences, in the order of the words.
    pub fn as_slice(&self) -> (slice: &[i32])
        ensures
            slice@ == self@,
    {
        self.values.as_slice()
    }

    /// The confidences, to change in place: what the caller leaves in the
    /// slice is what the value holds afterwards.
    pub fn as_slice_mut(&mut self) -> (slice: &mut [i32])
        ensures
            slice@ == old(self)@,
            final(slice)@ == final(self)@,
    {
        self.values.as_mut_slice()
    }
}

/// Where the first sentinel of `native` stands at index `n`, the array holds
/// `n` confidences, and they are the first `n` elements of `native`. What
/// follows the sentinel plays no part.
pub proof fn lemma_array_ends_at_first_sentinel(native: Seq<i32>, n: int, words: Seq<i32>)
    requires
        0 <= n < native.len(),
        native[n] == SENTINEL,
        forall|i: int| 0 <= i < n ==> native[i] != SENTINEL,
        is_terminated_prefix(native, words),
    ensures
        words.len() == n,
        words == native.take(n),
{
    if words.len() < n {
        assert(native[words.len() as int] == SENTINEL);
    } else if words.len() > n {
        assert(words[n] == native.take(words.len() as int)[n]);
    }
}

} // verus!
