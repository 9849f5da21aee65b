//! The truncation capability and its in-memory representations.

use vstd::prelude::*;
use vstd::slice::slice_subrange;
use crate::error::ErrorKind;
use crate::error::TruncateError;
use crate::error::greater_length_message;

verus! {

/// A capability for byte sequences whose effective length can be cut down
/// to a requested byte count.
///
/// What happens when `new_len` is larger than the current length is left
/// to each implementation: it may reject the request, or extend the data
/// in some way. An implementation that rejects it — leaving the object
/// unchanged and reporting invalid input — says so through
/// [`shrink_only`](Truncate::shrink_only), and every contract below is
/// conditional on that policy; callers must consult the policy of the
/// concrete representation rather than assume one uniformly.
pub trait Truncate: Sized {
    /// The bytes this object currently holds, as the capability sees them.
    spec fn contents(&self) -> Seq<u8>;

    /// Whether this representation promises to reject any `new_len`
    /// larger than the current length, leaving the object unchanged.
    spec fn shrink_only() -> bool;

    /// Truncate the object to the given new length in bytes.
    fn truncate(&mut self, new_len: usize) -> (r: Result<(), TruncateError>)
        ensures
            truncate_post(
                (*old(self)).contents(),
                (*final(self)).contents(),
                Self::shrink_only(),
                new_len,
                r,
            ),
    ;
}

/// What every implementation of [`Truncate::truncate`] promises about a
/// call that took the object's bytes from `pre` to `post` and returned
/// `r`, where `shrink_only` is the representation's policy.
///
/// Whatever the policy: a successful call that did not ask for more than
/// was there leaves exactly the first `new_len` bytes. Under the
/// shrink-only policy: the call succeeds exactly on `new_len` up to the
/// current length, and a rejected call leaves the bytes unchanged and
/// reports invalid input, naming both the requested and the current
/// length.
pub open spec fn truncate_post(
    pre: Seq<u8>,
    post: Seq<u8>,
    shrink_only: bool,
    new_len: usize,
    r: Result<(), TruncateError>,
) -> bool {
    &&& (r is Ok && new_len <= pre.len() ==> post == pre.take(new_len as int))
    &&& (shrink_only ==> {
        &&& (r is Ok <==> new_len <= pre.len())
        &&& (r is Err ==> {
            &&& post == pre
            &&& r->Err_0.spec_kind() == ErrorKind::InvalidInput
            &&& r->Err_0.spec_message() == greater_length_message(
                new_len as int,
                pre.len() as int,
            )
        })
    })
}

/// Shrink-only invariant: under the shrink-only policy, a request for at
/// most the current length succeeds, and the object afterwards holds
/// exactly the first `new_len` bytes of what it held before.
pub proof fn lemma_shrink_only_success(
    pre: Seq<u8>,
    post: Seq<u8>,
    new_len: usize,
    r: Result<(), TruncateError>,
)
    requires
        truncate_post(pre, post, true, new_len, r),
        new_len <= pre.len(),
    ensures
        r is Ok,
        post == pre.take(new_len as int),
{
}

/// Rejection invariant: under the shrink-only policy, a request beyond
/// the current length fails with invalid input — naming the requested
/// and the current length — and leaves the object unchanged.
pub proof fn lemma_shrink_only_rejection(
    pre: Seq<u8>,
    post: Seq<u8>,
    new_len: usize,
    r: Result<(), TruncateError>,
)
    requires
        truncate_post(pre, post, true, new_len, r),
        new_len > pre.len(),
    ensures
        r is Err,
        post == pre,
        r->Err_0.spec_kind() == ErrorKind::InvalidInput,
        r->Err_0.spec_message() == greater_length_message(new_len as int, pre.len() as int),
{
}

/// Idempotence: truncating to the current length leaves the contents
/// unchanged whenever it succeeds, and under the shrink-only policy it
/// always succeeds. (A representation that is not shrink-only may still
/// fail for its own reasons — a platform call may — so success cannot be
/// promised there.)
pub proof fn lemma_truncate_to_current_len_noop(
    pre: Seq<u8>,
    post: Seq<u8>,
    shrink_only: bool,
    new_len: usize,
    r: Result<(), TruncateError>,
)
    requires
        truncate_post(pre, post, shrink_only, new_len, r),
        new_len == pre.len(),
    ensures
        shrink_only ==> r is Ok,
        r is Ok ==> post == pre,
{
    assert(pre.take(pre.len() as int) =~= pre);
}

impl Truncate for Vec<u8> {
    /// A growable buffer holds exactly its elements.
    open spec fn contents(&self) -> Seq<u8> {
        self@
    }

    /// A growable buffer only ever shrinks: a request beyond the current
    /// length is rejected, never silently extended.
    open spec fn shrink_only() -> bool {
        true
    }

    /// Shortens the `Vec`, or returns an error if the requested length is
    /// larger than the current length.
    fn truncate(&mut self, new_len: usize) -> (r: Result<(), TruncateError>) {
        if new_len <= self.len() {
            Vec::truncate(self, new_len);
            proof {
                assert(self@ =~= old(self)@.take(new_len as int));
            }
            Ok(())
        } else {
            let len: usize = self.len();
            Err(TruncateError::greater_length(new_len, len))
        }
    }
}

impl<'a> Truncate for &'a [u8] {
    /// A borrowed view holds exactly the bytes it currently spans.
    open spec fn contents(&self) -> Seq<u8> {
        (*self)@
    }

    /// A borrowed view only ever narrows: a request beyond the current
    /// length is rejected, never silently extended.
    open spec fn shrink_only() -> bool {
        true
    }

    /// Narrows the view, or returns an error if the requested length is
    /// larger than the current length. The underlying storage is
    /// untouched; only this view's end boundary moves inward.
    fn truncate(&mut self, new_len: usize) -> (r: Result<(), TruncateError>) {
        let cur: &'a [u8] = *self;
        if new_len <= cur.len() {
            *self = slice_subrange(cur, 0, new_len);
            proof {
                assert((*self)@ =~= cur@.take(new_len as int));
            }
            Ok(())
        } else {
            Err(TruncateError::greater_length(new_len, cur.len()))
        }
    }
}

impl<T: Truncate> Truncate for &mut T {
    /// A mutable reference presents exactly the bytes of its target.
    open spec fn contents(&self) -> Seq<u8> {
        (**self).contents()
    }

    /// A mutable reference forwards its target's policy unchanged.
    open spec fn shrink_only() -> bool {
        T::shrink_only()
    }

    /// Pure forwarding to the target's own implementation: no added
    /// logic, no added error, no added side effect.
    ///
    /// Delegation transparency: the clause below is, word for word, the
    /// contract of a direct call on the target — invoking the capability
    /// through the reference promises exactly what invoking it on the
    /// referenced object does.
    fn truncate(&mut self, new_len: usize) -> (r: Result<(), TruncateError>)
        ensures
            *final(*old(self)) == *final(*final(self)),
            truncate_post(
                (**old(self)).contents(),
                (**final(self)).contents(),
                T::shrink_only(),
                new_len,
                r,
            ),
    {
        (**self).truncate(new_len)
    }
}

} // verus!
