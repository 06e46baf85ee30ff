use std::collections::HashMap;
use vstd::prelude::*;
use vstd::rwlock::{RwLock, RwLockPredicate};
use crate::user::{User, UserView};

verus! {

broadcast use vstd::std_specs::hash::group_hash_axioms;

/// The id-keyed mapping of user records.
///
/// Its value is a map from id to record, and every record is stored under its
/// own id, so there is at most one record per id.
pub struct UserStore {
    users: HashMap<u64, User>,
}

impl View for UserStore {
    type V = Map<u64, UserView>;

    closed spec fn view(&self) -> Map<u64, UserView> {
        self.users@.map_values(|u: User| u@)
    }
}

impl UserStore {
    #[verifier::type_invariant]
    spec fn inv(&self) -> bool {
        forall|k: u64| #[trigger] self.users@.contains_key(k) ==> self.users@[k].id == k
    }

    /// An empty store.
    pub fn new() -> (r: UserStore)
        ensures
            r@ == Map::<u64, UserView>::empty(),
    {
        let r = UserStore { users: HashMap::new() };
        assert(r@ =~= Map::<u64, UserView>::empty());
        r
    }

    /// A copy of the record stored under `id`, if there is one.
    pub fn get(&self, id: u64) -> (r: Option<User>)
        ensures
            match r {
                Some(u) => self@.contains_key(id) && u@ == self@[id] && u.id == id,
                None => !self@.contains_key(id),
            },
    {
        proof {
            use_type_invariant(self);
        }
        match self.users.get(&id) {
            Some(u) => Some(u.clone()),
            None => None,
        }
    }

    /// Stores `user` under its id, replacing whatever record that id had.
    pub fn put(&mut self, user: User)
        ensures
            final(self)@ == old(self)@.insert(user.id, user@),
    {
        proof {
            use_type_invariant(&*self);
        }
        let ghost u = user@;
        let id = user.id;
        // The map is moved out and back whole: the invariant of `UserStore`
        // rules out a mutable borrow of its field.
        let mut taken = UserStore { users: HashMap::new() };
        std::mem::swap(self, &mut taken);
        let mut users = taken.users;
        users.insert(id, user);
        let updated = UserStore { users };
        *self = updated;
        assert(self@ =~= old(self)@.insert(id, u));
    }
}

/// Admits every store into the lock: a [`UserStore`] keeps its own invariant.
pub struct AnyStore;

impl RwLockPredicate<UserStore> for AnyStore {
    open spec fn inv(self, s: UserStore) -> bool {
        true
    }
}

/// A store shared between concurrent request handlers.
///
/// Reads take the lock shared and writes take it exclusive, each for one map
/// operation only. Other handlers may change the store between two calls, so
/// a call says only what holds whatever they did.
pub struct SharedStore {
    lock: RwLock<UserStore, AnyStore>,
}

impl SharedStore {
    /// A shared store that holds no record.
    pub fn new() -> (r: SharedStore) {
        SharedStore { lock: RwLock::new(UserStore::new(), Ghost(AnyStore)) }
    }

    /// A copy of the record stored under `id` when the read lock was held.
    pub fn get(&self, id: u64) -> (r: Option<User>)
        ensures
            r matches Some(u) ==> u.id == id,
    {
        let handle = self.lock.acquire_read();
        let r = handle.borrow().get(id);
        handle.release_read();
        r
    }

    /// Stores `user` under its id while holding the write lock.
    pub fn put(&self, user: User) {
        let (mut users, handle) = self.lock.acquire_write();
        users.put(user);
        handle.release_write(users);
    }
}

} // verus!
