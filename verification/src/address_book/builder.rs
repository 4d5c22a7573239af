//! Builder for the address book.
use vstd::prelude::*;

verus! {

/// Errors of the address book, generic over the backing store's error
/// (`E`) and the error of a failed actor spawn (`S`).
#[derive(Debug)]
pub enum AddressBookError<E, S> {
    /// The backing store failed.
    Store(E),
    /// No store was given, and the build has no backend the address book
    /// could pick on its own.
    NoStore,
    /// Spawning the address book's actor failed.
    ActorSpawn(S),
}

/// Collects what the address book is spawned with: the handle of the store
/// that backs it.
pub struct Builder<H> {
    store: Option<H>,
}

impl<H> Builder<H> {
    /// The store given so far, if any.
    pub closed spec fn given_store(self) -> Option<H> {
        self.store
    }

    /// A builder that has no store yet.
    pub fn new() -> (b: Self)
        ensures
            b.given_store() is None,
    {
        Builder { store: None }
    }

    /// Back the address book with `store`, in place of any store given before.
    pub fn store(self, store: H) -> (b: Self)
        ensures
            b.given_store() == Some(store),
    {
        Builder { store: Some(store) }
    }

    /// The store the address book's actor is spawned with, if one was
    /// given; without one, the address book falls back to a default backend.
    pub fn into_store(self) -> (store: Option<H>)
        ensures
            store == self.given_store(),
    {
        self.store
    }
}

} // verus!
