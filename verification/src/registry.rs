//! The registry of subscriptions.
//!
//! A subscription is known by its handle, a number that the registry assigns
//! and never assigns again. With each handle the registry keeps what cancels
//! the subscription: a value of the caller's choosing (the sending end of a
//! channel, say), which the registry gives back when the subscription ends,
//! so that the caller can fire it. The registry is a plain value; whoever
//! shares it between threads puts it behind their lock.

use std::collections::HashMap;
use vstd::prelude::*;

verus! {

broadcast use vstd::std_specs::hash::group_hash_axioms;

/// Why the registry refused.
#[derive(Clone, Copy, Debug, PartialEq, Eq, Structural)]
pub enum RegistryError {
    /// No subscription has this handle: it was never assigned, or the
    /// subscription has ended.
    NotFound,
    /// Every handle has been assigned.
    Exhausted,
}

impl RegistryError {
    pub open spec fn text(self) -> Seq<char> {
        match self {
            RegistryError::NotFound => "subscription not found"@,
            RegistryError::Exhausted => "no subscription handle is left"@,
        }
    }

    /// The error in words.
    pub fn message(&self) -> (message: String)
        ensures
            message@ == self.text(),
    {
        match self {
            RegistryError::NotFound => "subscription not found".to_owned(),
            RegistryError::Exhausted => "no subscription handle is left".to_owned(),
        }
    }
}

/// The handle that a new registry assigns first.
pub const FIRST_HANDLE: u32 = 1;

/// The subscriptions that are active, each with what cancels it.
pub struct SubscriptionRegistry<T> {
    upcoming: u32,
    cancels: HashMap<u32, T>,
}

impl<T> View for SubscriptionRegistry<T> {
    type V = Map<u32, T>;

    /// The active subscriptions: from handle to what cancels it.
    closed spec fn view(&self) -> Map<u32, T> {
        self.cancels@
    }
}

impl<T> SubscriptionRegistry<T> {
    #[verifier::type_invariant]
    spec fn handles_are_past(self) -> bool {
        &&& self.upcoming >= FIRST_HANDLE
        &&& forall|handle: u32|
            self.cancels@.contains_key(handle) ==> FIRST_HANDLE <= handle < self.upcoming
    }

    /// The handle that the next subscription gets, or `u32::MAX` when none is
    /// left.
    pub closed spec fn upcoming(&self) -> u32 {
        self.upcoming
    }

    /// A registry without subscriptions.
    pub fn new() -> (registry: Self)
        ensures
            registry@ == Map::<u32, T>::empty(),
            registry.upcoming() == FIRST_HANDLE,
    {
        SubscriptionRegistry { upcoming: FIRST_HANDLE, cancels: HashMap::new() }
    }

    /// Registers a subscription that `cancel` cancels, and returns its
    /// handle. The handle is larger than every handle assigned before.
    pub fn subscribe(&mut self, cancel: T) -> (outcome: Result<u32, RegistryError>)
        ensures
            match outcome {
                Ok(handle) => {
                    &&& handle == old(self).upcoming()
                    &&& handle < u32::MAX
                    &&& final(self).upcoming() == handle + 1
                    &&& !old(self)@.contains_key(handle)
                    &&& final(self)@ == old(self)@.insert(handle, cancel)
                },
                Err(error) => {
                    &&& error == RegistryError::Exhausted
                    &&& old(self).upcoming() == u32::MAX
                    &&& final(self).upcoming() == old(self).upcoming()
                    &&& final(self)@ == old(self)@
                },
            },
            forall|handle: u32| #[trigger]
                old(self)@.contains_key(handle) ==> FIRST_HANDLE <= handle < old(self).upcoming(),
    {
        proof {
            use_type_invariant(&*self);
        }
        if self.upcoming == u32::MAX {
            return Err(RegistryError::Exhausted);
        }
        let handle: u32 = self.upcoming;
        let mut cancels: HashMap<u32, T> = HashMap::new();
        std::mem::swap(&mut self.cancels, &mut cancels);
        cancels.insert(handle, cancel);
        *self = SubscriptionRegistry { upcoming: handle + 1, cancels };
        Ok(handle)
    }

    /// Ends the subscription `handle` and returns what cancels it. The other
    /// subscriptions stay as they are.
    pub fn unsubscribe(&mut self, handle: u32) -> (outcome: Result<T, RegistryError>)
        ensures
            match outcome {
                Ok(cancel) => {
                    &&& old(self)@.contains_key(handle)
                    &&& cancel == old(self)@[handle]
                    &&& final(self)@ == old(self)@.remove(handle)
                },
                Err(error) => {
                    &&& error == RegistryError::NotFound
                    &&& !old(self)@.contains_key(handle)
                    &&& final(self)@ == old(self)@
                },
            },
            final(self).upcoming() == old(self).upcoming(),
    {
        proof {
            use_type_invariant(&*self);
        }
        let mut cancels: HashMap<u32, T> = HashMap::new();
        std::mem::swap(&mut self.cancels, &mut cancels);
        let found = cancels.remove(&handle);
        proof {
            if found is None {
                assert(cancels@ =~= old(self).cancels@);
            }
        }
        std::mem::swap(&mut self.cancels, &mut cancels);
        match found {
            Some(cancel) => Ok(cancel),
            None => Err(RegistryError::NotFound),
        }
    }

    /// Ends every subscription and returns what cancels each, by handle.
    pub fn unsubscribe_all(&mut self) -> (ended: HashMap<u32, T>)
        ensures
            ended@ == old(self)@,
            final(self)@ == Map::<u32, T>::empty(),
            final(self).upcoming() == old(self).upcoming(),
    {
        proof {
            use_type_invariant(&*self);
        }
        let mut ended: HashMap<u32, T> = HashMap::new();
        std::mem::swap(&mut self.cancels, &mut ended);
        ended
    }

    /// Whether a subscription with this handle is active.
    pub fn contains(&self, handle: u32) -> (active: bool)
        ensures
            active == self@.contains_key(handle),
            active ==> FIRST_HANDLE <= handle < self.upcoming(),
    {
        proof {
            use_type_invariant(self);
        }
        self.cancels.contains_key(&handle)
    }

    /// The number of active subscriptions.
    pub fn len(&self) -> (count: usize)
        ensures
            count == self@.len(),
            self@.dom().finite(),
    {
        self.cancels.len()
    }

    /// Whether no subscription is active.
    pub fn is_empty(&self) -> (empty: bool)
        ensures
            empty == (self@ == Map::<u32, T>::empty()),
    {
        let empty = self.cancels.is_empty();
        proof {
            if empty {
                assert(self.cancels@ =~= Map::<u32, T>::empty());
            }
        }
        empty
    }
}

} // verus!
