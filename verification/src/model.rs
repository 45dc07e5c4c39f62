//! The passive record types of the user directory, and their mathematical
//! views. A record is a plain value: it is built once from a decoded
//! response and never mutated.

use vstd::prelude::*;

verus! {

/// A geographical point, both coordinates kept as the decimal text in which
/// they arrive, so that they round-trip exactly as received.
#[derive(Clone, Debug, PartialEq, Eq)]
pub struct Geo {
    pub lat: String,
    pub lng: String,
}

/// A postal address, owning one `Geo` by value.
#[derive(Clone, Debug, PartialEq, Eq)]
pub struct Address {
    pub street: String,
    pub suite: String,
    pub city: String,
    pub zipcode: String,
    pub geo: Geo,
}

/// A company record.
#[derive(Clone, Debug, PartialEq, Eq)]
pub struct Company {
    pub name: String,
    pub catch_phrase: String,
    pub bs: String,
}

/// One user record of the directory. `id` is the stable identifier under
/// which a single user is fetched.
#[derive(Clone, Debug, PartialEq, Eq)]
pub struct User {
    pub id: i32,
    pub name: String,
    pub username: String,
    pub email: String,
    pub phone: String,
    pub website: String,
    pub address: Address,
    pub company: Company,
}

/// An ordered list of users, in the order the server sent them.
#[derive(Clone, Debug, PartialEq, Eq)]
pub struct Users(pub Vec<User>);

/// The mathematical view of a `Geo`.
pub struct GeoV {
    pub lat: Seq<char>,
    pub lng: Seq<char>,
}

/// The mathematical view of an `Address`.
pub struct AddressV {
    pub street: Seq<char>,
    pub suite: Seq<char>,
    pub city: Seq<char>,
    pub zipcode: Seq<char>,
    pub geo: GeoV,
}

/// The mathematical view of a `Company`.
pub struct CompanyV {
    pub name: Seq<char>,
    pub catch_phrase: Seq<char>,
    pub bs: Seq<char>,
}

/// The mathematical view of a `User`.
pub struct UserV {
    pub id: int,
    pub name: Seq<char>,
    pub username: Seq<char>,
    pub email: Seq<char>,
    pub phone: Seq<char>,
    pub website: Seq<char>,
    pub address: AddressV,
    pub company: CompanyV,
}

impl View for Geo {
    type V = GeoV;

    open spec fn view(&self) -> GeoV {
        GeoV { lat: self.lat@, lng: self.lng@ }
    }
}

impl View for Address {
    type V = AddressV;

    open spec fn view(&self) -> AddressV {
        AddressV {
            street: self.street@,
            suite: self.suite@,
            city: self.city@,
            zipcode: self.zipcode@,
            geo: self.geo@,
        }
    }
}

impl View for Company {
    type V = CompanyV;

    open spec fn view(&self) -> CompanyV {
        CompanyV {
            name: self.name@,
            catch_phrase: self.catch_phrase@,
            bs: self.bs@,
        }
    }
}

impl View for User {
    type V = UserV;

    open spec fn view(&self) -> UserV {
        UserV {
            id: self.id as int,
            name: self.name@,
            username: self.username@,
            email: self.email@,
            phone: self.phone@,
            website: self.website@,
            address: self.address@,
            company: self.company@,
        }
    }
}

impl View for Users {
    type V = Seq<UserV>;

    open spec fn view(&self) -> Seq<UserV> {
        Seq::new(self.0@.len(), |i: int| self.0@[i]@)
    }
}

} // verus!
