use rand::Rng;
use vstd::prelude::*;

verus! {

/// A selection was requested from a store that holds no entries.
#[derive(Debug, Clone, Copy, PartialEq, Eq, Structural)]
pub struct EmptyStoreError;

/// An immutable ordered corpus of entries, fixed once constructed.
pub struct Store<T> {
    entries: Vec<T>,
}

impl<T> View for Store<T> {
    type V = Seq<T>;

    closed spec fn view(&self) -> Seq<T> {
        self.entries@
    }
}

/// Relies on rand::Rng::gen_range over the range `0..n`: it draws uniformly
/// from that range, so the result is always below `n`; it panics only when
/// the range is empty, which `n > 0` rules out.
#[verifier::external_body]
fn random_index_below(n: usize) -> (r: usize)
    requires
        n > 0,
    ensures
        r < n,
{
    rand::thread_rng().gen_range(0..n)
}

impl<T> Store<T> {
    /// Wraps an ordered sequence of entries as a read-only store.
    pub fn new(entries: Vec<T>) -> (s: Store<T>)
        ensures
            s@ == entries@,
    {
        Store { entries }
    }

    pub fn len(&self) -> (n: usize)
        ensures
            n == self@.len(),
    {
        self.entries.len()
    }

    pub fn get(&self, i: usize) -> (e: &T)
        requires
            i < self@.len(),
        ensures
            *e == self@[i as int],
    {
        &self.entries[i]
    }

    /// Draws one entry at an index chosen uniformly from `[0, len)`.
    /// An empty store is rejected with `EmptyStoreError`; the store itself
    /// is never touched, so no partial effect can occur.
    pub fn pick_random(&self) -> (r: Result<&T, EmptyStoreError>)
        ensures
            self@.len() > 0 ==> (r matches Ok(e) && exists|i: int|
                0 <= i < self@.len() && *e == self@[i]),
            self@.len() == 0 ==> (r matches Err(err) && err == EmptyStoreError),
    {
        let n = self.entries.len();
        if n == 0 {
            Err(EmptyStoreError)
        } else {
            let i = random_index_below(n);
            Ok(&self.entries[i])
        }
    }
}

} // verus!
