//! Trusted interface to the small-vector collections the submission builder
//! stores its lists in.
//!
//! The builder keeps three kinds of lists: semaphore handles (`u64`, inline
//! capacity 16), stage masks (`u32`, inline capacity 8) and command-buffer
//! handles (`u64`, inline capacity 4). Each kind is held in a struct of its
//! own whose single field is the collection; an uninterpreted function names
//! the sequence of elements the collection holds, and thin wrappers state
//! over that name what the collection's methods do.

use vstd::prelude::*;

verus! {

/// List of semaphore handles, inline up to 16 entries.
#[verifier::external_body]
#[derive(Debug)]
pub struct SemList {
    inner: smallvec::SmallVec<[u64; 16]>,
}

/// List of pipeline stage masks, inline up to 8 entries.
#[verifier::external_body]
#[derive(Debug)]
pub struct StageList {
    inner: smallvec::SmallVec<[u32; 8]>,
}

/// List of command-buffer handles, inline up to 4 entries.
#[verifier::external_body]
#[derive(Debug)]
pub struct BufList {
    inner: smallvec::SmallVec<[u64; 4]>,
}

/// The elements a semaphore-handle list holds, in order.
pub uninterp spec fn sem_list(v: SemList) -> Seq<u64>;

/// The elements a stage-mask list holds, in order.
pub uninterp spec fn stage_list(v: StageList) -> Seq<u32>;

/// The elements a command-buffer-handle list holds, in order.
pub uninterp spec fn buf_list(v: BufList) -> Seq<u64>;

/// Relies on smallvec::SmallVec::new: the constructed vector is empty.
#[verifier::external_body]
pub(crate) fn sem_new() -> (v: SemList)
    ensures
        sem_list(v) == Seq::<u64>::empty(),
{
    SemList { inner: smallvec::SmallVec::new() }
}

/// Relies on smallvec::SmallVec::push: appends the item at the end.
#[verifier::external_body]
pub(crate) fn sem_push(v: &mut SemList, x: u64)
    ensures
        sem_list(*final(v)) == sem_list(*old(v)).push(x),
{
    v.inner.push(x);
}

/// Relies on smallvec::SmallVec::len: the number of elements held.
#[verifier::external_body]
pub(crate) fn sem_len(v: &SemList) -> (n: usize)
    ensures
        n == sem_list(*v).len(),
{
    v.inner.len()
}

/// Relies on smallvec's Extend impl: appends the other vector's elements in
/// order after the existing ones.
#[verifier::external_body]
pub(crate) fn sem_extend(v: &mut SemList, other: SemList)
    ensures
        sem_list(*final(v)) == sem_list(*old(v)) + sem_list(other),
{
    v.inner.extend(other.inner);
}

/// Relies on smallvec::SmallVec::into_vec: hands the elements out unchanged
/// and in order.
#[verifier::external_body]
pub(crate) fn sem_into_vec(v: SemList) -> (r: Vec<u64>)
    ensures
        r@ == sem_list(v),
{
    v.inner.into_vec()
}

/// Relies on smallvec::SmallVec::new: the constructed vector is empty.
#[verifier::external_body]
pub(crate) fn stage_new() -> (v: StageList)
    ensures
        stage_list(v) == Seq::<u32>::empty(),
{
    StageList { inner: smallvec::SmallVec::new() }
}

/// Relies on smallvec::SmallVec::push: appends the item at the end.
#[verifier::external_body]
pub(crate) fn stage_push(v: &mut StageList, x: u32)
    ensures
        stage_list(*final(v)) == stage_list(*old(v)).push(x),
{
    v.inner.push(x);
}

/// Relies on smallvec's Extend impl: appends the other vector's elements in
/// order after the existing ones.
#[verifier::external_body]
pub(crate) fn stage_extend(v: &mut StageList, other: StageList)
    ensures
        stage_list(*final(v)) == stage_list(*old(v)) + stage_list(other),
{
    v.inner.extend(other.inner);
}

/// Relies on smallvec::SmallVec::into_vec: hands the elements out unchanged
/// and in order.
#[verifier::external_body]
pub(crate) fn stage_into_vec(v: StageList) -> (r: Vec<u32>)
    ensures
        r@ == stage_list(v),
{
    v.inner.into_vec()
}

/// Relies on smallvec::SmallVec::new: the constructed vector is empty.
#[verifier::external_body]
pub(crate) fn buf_new() -> (v: BufList)
    ensures
        buf_list(v) == Seq::<u64>::empty(),
{
    BufList { inner: smallvec::SmallVec::new() }
}

/// Relies on smallvec::SmallVec::push: appends the item at the end.
#[verifier::external_body]
pub(crate) fn buf_push(v: &mut BufList, x: u64)
    ensures
        buf_list(*final(v)) == buf_list(*old(v)).push(x),
{
    v.inner.push(x);
}

/// Relies on smallvec's Extend impl: appends the other vector's elements in
/// order after the existing ones.
#[verifier::external_body]
pub(crate) fn buf_extend(v: &mut BufList, other: BufList)
    ensures
        buf_list(*final(v)) == buf_list(*old(v)) + buf_list(other),
{
    v.inner.extend(other.inner);
}

/// Relies on smallvec::SmallVec::into_vec: hands the elements out unchanged
/// and in order.
#[verifier::external_body]
pub(crate) fn buf_into_vec(v: BufList) -> (r: Vec<u64>)
    ensures
        r@ == buf_list(v),
{
    v.inner.into_vec()
}

} // verus!
