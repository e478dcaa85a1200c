use vstd::prelude::*;
use crate::error::{ArgName, Error};

verus! {

/// An opaque handle to a cache held in a [`CacheRegistry`]. Only the
/// registry makes handles, and releasing one consumes it, so a handle cannot
/// be released twice.
pub struct cache_t {
    slot: usize,
}

impl cache_t {
    /// The registry slot the handle stands for.
    pub closed spec fn index(&self) -> int {
        self.slot as int
    }
}

/// The caches handed out to the foreign caller, each reachable only through
/// its handle.
pub struct CacheRegistry<C> {
    slots: Vec<Option<C>>,
}

impl<C> CacheRegistry<C> {
    /// The registry's slots; a released or checked-out cache leaves `None`.
    pub closed spec fn slots(&self) -> Seq<Option<C>> {
        self.slots@
    }

    /// Whether `h` stands for a cache that is present in the registry.
    pub open spec fn holds(&self, h: &cache_t) -> bool {
        0 <= h.index() < self.slots().len() && self.slots()[h.index()] is Some
    }

    pub fn new() -> (r: Self)
        ensures
            r.slots() == Seq::<Option<C>>::empty(),
    {
        CacheRegistry { slots: Vec::new() }
    }

    /// Takes ownership of a cache and returns the handle that stands for it.
    pub fn insert(&mut self, cache: C) -> (h: cache_t)
        ensures
            final(self).slots() == old(self).slots().push(Some(cache)),
            h.index() == old(self).slots().len(),
            final(self).holds(&h),
    {
        let slot = self.slots.len();
        self.slots.push(Some(cache));
        cache_t { slot }
    }

    /// Whether `h` stands for a cache that is present.
    pub fn contains(&self, h: &cache_t) -> (r: bool)
        ensures
            r == self.holds(h),
    {
        h.slot < self.slots.len() && self.slots[h.slot].is_some()
    }

    /// Borrows the cache a handle stands for. A null handle, or one that
    /// stands for no cache, is reported as the missing cache argument.
    ///
    /// Rejecting a handle that stands for no cache (one already released, or
    /// made by another registry) is a deliberate strengthening: such use is a
    /// caller error that the boundary protocol itself leaves undefined.
    pub fn get(&self, h: Option<&cache_t>) -> (r: Result<&C, Error>)
        ensures
            h is None ==> r == Err::<&C, Error>(Error::EmptyArg { name: ArgName::Cache }),
            h matches Some(hh) ==> (!self.holds(hh) ==> r == Err::<&C, Error>(
                Error::EmptyArg { name: ArgName::Cache },
            )),
            h matches Some(hh) ==> (self.holds(hh) ==> (r matches Ok(c) && *c
                == self.slots()[hh.index()].unwrap())),
    {
        match h {
            None => Err(Error::empty_arg(ArgName::Cache)),
            Some(hh) => {
                if self.contains(hh) {
                    match self.slots[hh.slot].as_ref() {
                        Some(c) => Ok(c),
                        None => Err(Error::empty_arg(ArgName::Cache)),
                    }
                } else {
                    Err(Error::empty_arg(ArgName::Cache))
                }
            },
        }
    }

    /// Checks out the cache a handle stands for, taking it out of the
    /// registry. A null handle, or one that stands for no cache, is reported
    /// as the missing cache argument (a deliberate strengthening, as for
    /// [`CacheRegistry::get`]).
    pub fn checkout(&mut self, h: Option<&cache_t>) -> (r: Result<C, Error>)
        ensures
            h is None ==> r == Err::<C, Error>(Error::EmptyArg { name: ArgName::Cache }),
            h matches Some(hh) ==> (!old(self).holds(hh) ==> r == Err::<C, Error>(
                Error::EmptyArg { name: ArgName::Cache },
            ) && final(self).slots() == old(self).slots()),
            h matches Some(hh) ==> (old(self).holds(hh) ==> r == Ok::<C, Error>(
                old(self).slots()[hh.index()].unwrap(),
            ) && final(self).slots() == old(self).slots().update(hh.index(), None)),
            h is None ==> final(self).slots() == old(self).slots(),
    {
        match h {
            None => Err(Error::empty_arg(ArgName::Cache)),
            Some(hh) => {
                if self.contains(hh) {
                    let taken = self.slots.remove(hh.slot);
                    self.slots.insert(hh.slot, None);
                    assert(self.slots@ =~= old(self).slots().update(hh.index(), None));
                    match taken {
                        Some(c) => Ok(c),
                        None => Err(Error::empty_arg(ArgName::Cache)),
                    }
                } else {
                    Err(Error::empty_arg(ArgName::Cache))
                }
            },
        }
    }

    /// Puts a checked-out cache back under its handle.
    pub fn restore(&mut self, h: &cache_t, cache: C)
        requires
            0 <= h.index() < old(self).slots().len(),
        ensures
            final(self).slots() == old(self).slots().update(h.index(), Some(cache)),
    {
        let _ = self.slots.remove(h.slot);
        self.slots.insert(h.slot, Some(cache));
        assert(self.slots@ =~= old(self).slots().update(h.index(), Some(cache)));
    }
}

/// Releases the cache a handle stands for; the cache is dropped exactly once.
/// Releasing a null handle does nothing. A handle that stands for no cache is
/// ignored: a deliberate strengthening, since the boundary protocol leaves
/// such a release undefined.
pub fn release_cache<C>(registry: &mut CacheRegistry<C>, cache: Option<cache_t>)
    ensures
        cache is None ==> final(registry).slots() == old(registry).slots(),
        cache matches Some(h) ==> (old(registry).holds(&h) ==> final(registry).slots()
            == old(registry).slots().update(h.index(), None)),
        cache matches Some(h) ==> (!old(registry).holds(&h) ==> final(registry).slots()
            == old(registry).slots()),
{
    match cache {
        None => {},
        Some(h) => {
            let _ = registry.checkout(Some(&h));
        },
    }
}

} // verus!
