//! Lazily filled cache fields: not yet cached, cached, or failed with the
//! error that building them gave.
use vstd::prelude::*;
use crate::error::MuxError;

verus! {

/// The state of a cache field.
#[derive(Debug)]
pub enum CacheState<T> {
    NotCached,
    Cached(T),
    Failed(Box<MuxError>),
}

impl<T> CacheState<T> {
    /// The default state: not cached.
    pub fn default_state() -> (r: CacheState<T>)
        ensures
            r is NotCached,
    {
        CacheState::NotCached
    }

    /// The state that a build result gives: its value, or its error.
    pub fn from_res(res: Result<T, MuxError>) -> (r: CacheState<T>)
        ensures
            res matches Ok(v) ==> r == CacheState::Cached(v),
            res matches Err(e) ==> r == CacheState::<T>::Failed(Box::new(e)),
    {
        match res {
            Ok(v) => CacheState::Cached(v),
            Err(e) => CacheState::Failed(Box::new(e)),
        }
    }

    /// The cached value; the stored error when building failed; an error
    /// when nothing is cached.
    pub fn try_get(&self) -> (r: Result<&T, MuxError>)
        ensures
            *self matches CacheState::Cached(v) ==> r == Ok::<&T, MuxError>(&v),
            *self matches CacheState::Failed(e) ==> r == Err::<&T, MuxError>(*e),
            *self is NotCached ==> (r matches Err(e) && e.has_message("Not cached any"@)),
    {
        match self {
            CacheState::Cached(v) => Ok(v),
            CacheState::NotCached => Err(MuxError::from_str_msg("Not cached any")),
            CacheState::Failed(e) => Err(e.duplicate()),
        }
    }

    /// The cached value, if any.
    pub fn get(&self) -> (r: Option<&T>)
        ensures
            *self matches CacheState::Cached(v) ==> r == Some(&v),
            !(*self is Cached) ==> r is None,
    {
        match self {
            CacheState::Cached(v) => Some(v),
            _ => None,
        }
    }

    /// A mutable reference to the cached value, if any.
    pub fn get_mut(&mut self) -> (r: Option<&mut T>)
        ensures
            *old(self) is Cached <==> r is Some,
            r matches Some(x) ==> *x == (*old(self))->Cached_0 && *final(self) == CacheState::Cached(
                *final(x),
            ),
            r is None ==> *final(self) == *old(self),
    {
        match self {
            CacheState::Cached(v) => Some(v),
            _ => None,
        }
    }

    /// A mutable reference to the cached value; the stored error when
    /// building failed; an error when nothing is cached.
    pub fn try_mut(&mut self) -> (r: Result<&mut T, MuxError>)
        ensures
            *old(self) is Cached <==> r is Ok,
            r matches Ok(x) ==> *x == (*old(self))->Cached_0 && *final(self) == CacheState::Cached(
                *final(x),
            ),
            r is Err ==> *final(self) == *old(self),
            *old(self) matches CacheState::Failed(e) ==> r == Err::<&mut T, MuxError>(*e),
            *old(self) is NotCached ==> (r matches Err(e) && e.has_message("Not cached any"@)),
    {
        match self {
            CacheState::Cached(v) => Ok(v),
            CacheState::NotCached => Err(MuxError::from_str_msg("Not cached any")),
            CacheState::Failed(e) => Err(e.duplicate()),
        }
    }

    /// Takes the cached value out, leaving the field not cached; the stored
    /// error when building failed; an error when nothing is cached.
    pub fn try_take(&mut self) -> (r: Result<T, MuxError>)
        ensures
            *final(self) is NotCached,
            *old(self) matches CacheState::Cached(v) ==> r == Ok::<T, MuxError>(v),
            *old(self) matches CacheState::Failed(e) ==> r == Err::<T, MuxError>(*e),
            *old(self) is NotCached ==> (r matches Err(e) && e.has_message("Not cached any"@)),
    {
        let mut st = CacheState::NotCached;
        std::mem::swap(self, &mut st);
        match st {
            CacheState::Cached(v) => Ok(v),
            CacheState::NotCached => Err(MuxError::from_str_msg("Not cached any")),
            CacheState::Failed(e) => Err(*e),
        }
    }

    /// Takes the cached value out, leaving the field not cached.
    pub fn take(&mut self) -> (r: Option<T>)
        ensures
            *final(self) is NotCached,
            *old(self) matches CacheState::Cached(v) ==> r == Some(v),
            !(*old(self) is Cached) ==> r is None,
    {
        let mut st = CacheState::NotCached;
        std::mem::swap(self, &mut st);
        match st {
            CacheState::Cached(v) => Some(v),
            _ => None,
        }
    }

    /// `true` when a value is cached.
    pub fn is_cached(&self) -> (r: bool)
        ensures
            r == (*self is Cached),
    {
        match self {
            CacheState::Cached(_) => true,
            _ => false,
        }
    }
}

/// The state that a build result gives, together with the bare outcome.
pub fn new_state_and_result<T>(res: Result<T, MuxError>) -> (r: (CacheState<T>, Result<(), MuxError>))
    ensures
        res matches Ok(v) ==> r.0 == CacheState::Cached(v) && r.1 is Ok,
        res matches Err(e) ==> r.0 == CacheState::<T>::Failed(Box::new(e)) && r.1 == Err::<(), MuxError>(e),
{
    match res {
        Ok(v) => (CacheState::Cached(v), Ok(())),
        Err(e) => {
            let copy = e.duplicate();
            (CacheState::Failed(Box::new(e)), Err(copy))
        },
    }
}

} // verus!
