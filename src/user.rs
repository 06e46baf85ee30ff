use vstd::prelude::*;

verus! {

/// The mathematical value of a [`User`]: its id and the characters of its name.
pub ghost struct UserView {
    pub id: u64,
    pub name: Seq<char>,
}

/// A user record, keyed by its externally supplied `id`.
#[derive(Debug, PartialEq, Eq)]
pub struct User {
    pub id: u64,
    pub name: String,
}

impl View for User {
    type V = UserView;

    open spec fn view(&self) -> UserView {
        UserView { id: self.id, name: self.name@ }
    }
}

impl User {
    /// Builds a record from its two fields.
    pub fn new(id: u64, name: String) -> (r: User)
        ensures
            r.id == id,
            r.name@ == name@,
    {
        User { id, name }
    }
}

impl Clone for User {
    fn clone(&self) -> (r: User)
        ensures
            r@ == self@,
    {
        User { id: self.id, name: self.name.clone() }
    }
}

} // verus!
