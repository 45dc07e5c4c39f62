//! The repository client: an immutable base URL, the two request URLs it
//! yields, and the decoding of the two response bodies. The caller performs
//! the HTTP exchange and hands the body text back to this module.

use vstd::prelude::*;

use crate::codec::{user_of_json, users_of_json};
use crate::json::{json_of_text, parse_text};
use crate::model::{User, Users};

verus! {

/// Why a call on the directory failed: the request could not be completed,
/// or the response body does not decode into the expected record shape.
/// Each variant carries a short description.
#[derive(Clone, Debug, PartialEq, Eq)]
pub enum Error {
    Transport(String),
    Decode(String),
}

impl Error {
    /// The description the error carries.
    pub fn message(&self) -> (r: &String)
        ensures
            match self {
                Error::Transport(m) => r@ == m@,
                Error::Decode(m) => r@ == m@,
            },
    {
        match self {
            Error::Transport(m) => m,
            Error::Decode(m) => m,
        }
    }
}

/// The client configuration: a base URL, set at construction and never
/// mutated afterwards.
pub struct UserRepo {
    base_url: String,
}

impl UserRepo {
    /// The base URL, as a sequence of characters.
    pub closed spec fn base(&self) -> Seq<char> {
        self.base_url@
    }

    /// Builds a client targeting the given base URL.
    pub fn new(base_url: String) -> (r: Self)
        ensures
            r.base() == base_url@,
    {
        UserRepo { base_url }
    }

    /// The base URL the client was built with.
    pub fn base_url(&self) -> (r: &String)
        ensures
            r@ == self.base(),
    {
        &self.base_url
    }

    /// The URL under which the user with the given identifier is fetched:
    /// the base URL followed by `/users/` and the identifier.
    pub fn user_url(&self, id: &str) -> (r: String)
        ensures
            r@ == self.base() + "/users/"@ + id@,
    {
        let u = self.base_url.clone();
        let u = u.concat("/users/");
        let u = u.concat(id);
        u
    }

    /// The URL under which the full user list is fetched: the base URL
    /// followed by `/users`.
    pub fn users_url(&self) -> (r: String)
        ensures
            r@ == self.base() + "/users"@,
    {
        let u = self.base_url.clone();
        let u = u.concat("/users");
        u
    }
}

impl Default for UserRepo {
    /// A client targeting the well-known default endpoint.
    fn default() -> (r: Self)
        ensures
            r.base() == "https://jsonplaceholder.typicode.com"@,
    {
        UserRepo::new("https://jsonplaceholder.typicode.com".to_owned())
    }
}

/// Decodes the body of a single-user response: the user the body denotes,
/// or a decode error if the body is not well-formed JSON or the tree it
/// denotes does not carry the full user shape.
pub fn decode_user_body(body: &str) -> (r: Result<User, Error>)
    ensures
        match r {
            Ok(u) => {
                &&& json_of_text(body@) matches Some(j)
                &&& user_of_json(j) == Some(u@)
            },
            Err(e) => {
                &&& e is Decode
                &&& match json_of_text(body@) {
                    None => true,
                    Some(j) => user_of_json(j) is None,
                }
            },
        },
{
    match parse_text(body) {
        Some(j) => match crate::codec::user_from_json(&j) {
            Some(u) => Ok(u),
            None => Err(Error::Decode("the response body is not a user record".to_owned())),
        },
        None => Err(Error::Decode("the response body is not well-formed JSON".to_owned())),
    }
}

/// Decodes the body of a user-list response: the ordered list the body
/// denotes, or a decode error if the body is not well-formed JSON or is
/// not an array of user objects.
pub fn decode_users_body(body: &str) -> (r: Result<Users, Error>)
    ensures
        match r {
            Ok(us) => {
                &&& json_of_text(body@) matches Some(j)
                &&& users_of_json(j) == Some(us@)
            },
            Err(e) => {
                &&& e is Decode
                &&& match json_of_text(body@) {
                    None => true,
                    Some(j) => users_of_json(j) is None,
                }
            },
        },
{
    match parse_text(body) {
        Some(j) => match crate::codec::users_from_json(&j) {
            Some(us) => Ok(us),
            None => Err(Error::Decode("the response body is not a user list".to_owned())),
        },
        None => Err(Error::Decode("the response body is not well-formed JSON".to_owned())),
    }
}

} // verus!
