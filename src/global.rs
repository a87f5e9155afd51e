//! Write-once process state: the first initialisation wins and every later
//! one is a no-op that observes the value already stored.
use vstd::prelude::*;

verus! {

/// Slot contents after `init_with(v)`.
pub open spec fn spec_init<T>(s: Option<T>, v: T) -> Option<T> {
    match s {
        Some(old_value) => Some(old_value),
        None => Some(v),
    }
}

/// Slot contents after `init_with` with each of `vs` in turn.
pub open spec fn spec_init_all<T>(s: Option<T>, vs: Seq<T>) -> Option<T>
    decreases vs.len(),
{
    if vs.len() == 0 {
        s
    } else {
        spec_init_all(spec_init(s, vs[0]), vs.drop_first())
    }
}

/// Once a slot has been initialised with `first`, no sequence of later
/// initialisations, in whatever order they are serialised, replaces it.
pub proof fn lemma_first_init_wins<T>(first: T, later: Seq<T>)
    ensures
        spec_init_all(spec_init(None, first), later) == Some(first),
    decreases later.len(),
{
    if later.len() > 0 {
        lemma_first_init_wins(first, later.drop_first());
    }
}

/// A value written at most once and read many times after.
pub struct ProcessGlobal<T> {
    value: Option<T>,
}

impl<T> View for ProcessGlobal<T> {
    type V = Option<T>;

    closed spec fn view(&self) -> Option<T> {
        self.value
    }
}

impl<T> ProcessGlobal<T> {
    /// An uninitialised slot.
    pub fn new() -> (r: Self)
        ensures
            r@ is None,
    {
        ProcessGlobal { value: None }
    }

    /// Stores `v` unless a value is stored already.
    pub fn init_with(&mut self, v: T)
        ensures
            final(self)@ == spec_init(old(self)@, v),
    {
        if self.value.is_none() {
            self.value = Some(v);
        }
    }

    /// Whether a value has been stored.
    pub fn is_initialized(&self) -> (r: bool)
        ensures
            r == self@ is Some,
    {
        self.value.is_some()
    }

    /// The stored value, absent before initialisation.
    pub fn read(&self) -> (r: Option<&T>)
        ensures
            match r {
                Some(v) => self@ == Some(*v),
                None => self@ is None,
            },
    {
        match &self.value {
            Some(v) => Some(v),
            None => None,
        }
    }
}

} // verus!
