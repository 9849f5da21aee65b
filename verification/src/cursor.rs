//! A position-tracking wrapper around any truncatable representation.

use vstd::prelude::*;
use crate::error::TruncateError;
use crate::truncate::Truncate;

verus! {

/// Pairs one inner byte-sequence representation with a cursor: an
/// unsigned offset into it.
///
/// The cursor is meant to stay within the inner length but is not
/// strictly held to it: [`set_position`](Cursor::set_position) accepts
/// any offset, and only a successful truncation clamps the cursor back to
/// the new length.
pub struct Cursor<T> {
    inner: T,
    pos: u64,
}

impl<T> Cursor<T> {
    /// The wrapped representation.
    pub closed spec fn spec_inner(&self) -> T {
        self.inner
    }

    /// The current cursor offset.
    pub closed spec fn spec_position(&self) -> u64 {
        self.pos
    }

    /// Wrap `inner`, with the cursor at the start.
    pub fn new(inner: T) -> (c: Cursor<T>)
        ensures
            c.spec_inner() == inner,
            c.spec_position() == 0,
    {
        Cursor { inner, pos: 0 }
    }

    /// The current cursor offset.
    pub fn position(&self) -> (p: u64)
        ensures
            p == self.spec_position(),
    {
        self.pos
    }

    /// Move the cursor to `pos`, which may lie beyond the inner length.
    pub fn set_position(&mut self, pos: u64)
        ensures
            (*final(self)).spec_position() == pos,
            (*final(self)).spec_inner() == (*old(self)).spec_inner(),
    {
        self.pos = pos;
    }

    /// A shared reference to the wrapped representation.
    pub fn get_ref(&self) -> (r: &T)
        ensures
            *r == self.spec_inner(),
    {
        &self.inner
    }

    /// Take the wrapped representation back out.
    pub fn into_inner(self) -> (r: T)
        ensures
            r == self.spec_inner(),
    {
        self.inner
    }
}

impl<T: Truncate> Truncate for Cursor<T> {
    /// A wrapper presents exactly the bytes of its inner representation.
    open spec fn contents(&self) -> Seq<u8> {
        self.spec_inner().contents()
    }

    /// A wrapper forwards its inner representation's policy unchanged.
    open spec fn shrink_only() -> bool {
        T::shrink_only()
    }

    /// Delegates to the inner representation; on success the cursor is
    /// then clamped to the new length, so that it is moved backward to
    /// exactly `new_len` if it lay in the truncated area and is left
    /// alone otherwise. On failure the inner error is propagated
    /// unchanged and the cursor is not touched.
    fn truncate(&mut self, new_len: usize) -> (r: Result<(), TruncateError>)
        ensures
            r is Ok ==> (*final(self)).spec_position() as int == vstd::math::min(
                (*old(self)).spec_position() as int,
                new_len as int,
            ),
            r is Err ==> (*final(self)).spec_position() == (*old(self)).spec_position(),
    {
        match self.inner.truncate(new_len) {
            Ok(()) => {
                let limit: u64 = new_len as u64;
                if limit < self.pos {
                    self.pos = limit;
                }
                Ok(())
            },
            Err(e) => Err(e),
        }
    }
}

} // verus!
