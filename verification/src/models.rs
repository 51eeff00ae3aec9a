use vstd::prelude::*;

verus! {

/// Mathematical image of a persisted user row: the four columns of the
/// `users` table as plain spec values.
pub struct UserView {
    pub id: int,
    pub name: Seq<char>,
    pub address: Seq<char>,
    pub date_created: Seq<char>,
}

/// A persisted user row: `id` and `date_created` are assigned by the store
/// at creation, `name` serves as the natural lookup key.
#[derive(Debug, PartialEq)]
pub struct User {
    pub id: i32,
    pub name: String,
    pub address: String,
    pub date_created: String,
}

impl View for User {
    type V = UserView;

    open spec fn view(&self) -> UserView {
        UserView {
            id: self.id as int,
            name: self.name@,
            address: self.address@,
            date_created: self.date_created@,
        }
    }
}

impl Clone for User {
    fn clone(&self) -> (r: Self)
        ensures
            r == *self,
    {
        User {
            id: self.id,
            name: self.name.clone(),
            address: self.address.clone(),
            date_created: self.date_created.clone(),
        }
    }
}

/// Row shape handed to an insert: the request fields plus the creation
/// timestamp, borrowed from their owners.
#[derive(Debug)]
pub struct UserNew<'a> {
    pub name: &'a str,
    pub address: &'a str,
    pub date_created: &'a str,
}

/// Wire shape of a create request: the client supplies only a name and an
/// address; `id` and `date_created` are server-assigned.
#[derive(Debug, PartialEq)]
pub struct UserJson {
    pub name: String,
    pub address: String,
}

impl Clone for UserJson {
    fn clone(&self) -> (r: Self)
        ensures
            r == *self,
    {
        UserJson { name: self.name.clone(), address: self.address.clone() }
    }
}

} // verus!
