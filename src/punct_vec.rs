//! The short run of punctuation that a repetition separator is made of,
//! held in a `smallvec::SmallVec` with room for three tokens inline.

use vstd::prelude::*;
use smallvec::SmallVec;
use crate::tt::Punct;

verus! {

/// A `SmallVec` of punctuation tokens; what it holds is `puncts_of`.
#[verifier::external_body]
#[derive(Debug, PartialEq, Eq)]
pub struct PunctVec {
    inner: SmallVec<[Punct; 3]>,
}

/// The punctuation tokens held, in order.
pub uninterp spec fn puncts_of(v: PunctVec) -> Seq<Punct>;

/// Relies on `SmallVec::new`: the new vector is empty.
#[verifier::external_body]
pub(crate) fn puncts_new() -> (r: PunctVec)
    ensures
        puncts_of(r) == Seq::<Punct>::empty(),
{
    PunctVec { inner: SmallVec::new() }
}

/// Relies on `SmallVec::push`: the value is appended at the end.
#[verifier::external_body]
pub(crate) fn puncts_push(v: &mut PunctVec, p: Punct)
    ensures
        puncts_of(*final(v)) == puncts_of(*old(v)).push(p),
{
    v.inner.push(p)
}

/// Relies on `SmallVec::len`: the number of elements held.
#[verifier::external_body]
pub(crate) fn puncts_len(v: &PunctVec) -> (r: usize)
    ensures
        r == puncts_of(*v).len(),
{
    v.inner.len()
}

/// Relies on indexing through `SmallVec`'s `Deref` to a slice: the element at `i`.
#[verifier::external_body]
pub(crate) fn puncts_get(v: &PunctVec, i: usize) -> (r: Punct)
    requires
        i < puncts_of(*v).len(),
    ensures
        r == puncts_of(*v)[i as int],
{
    v.inner[i]
}

} // verus!
