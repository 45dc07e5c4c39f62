//! The structural codec between JSON trees and the record types: what each
//! record means as JSON, the decoder, the encoder, and the round-trip law.

use vstd::prelude::*;

use crate::json::{get_int_field, get_str_field, int_field, lookup, obj_lookup, str_field, Json};
use crate::model::{Address, AddressV, Company, CompanyV, Geo, GeoV, User, UserV, Users};

verus! {

/// The geographical point a JSON tree denotes: an object carrying string
/// members `lat` and `lng`. Members beyond those are ignored, as a
/// structural decoder ignores unknown keys.
pub open spec fn geo_of_json(j: Json) -> Option<GeoV> {
    match j {
        Json::Obj(es) => match (str_field(es@, "lat"@), str_field(es@, "lng"@)) {
            (Some(lat), Some(lng)) => Some(GeoV { lat, lng }),
            _ => None,
        },
        _ => None,
    }
}

/// The address a JSON tree denotes.
pub open spec fn address_of_json(j: Json) -> Option<AddressV> {
    match j {
        Json::Obj(es) => match (
            str_field(es@, "street"@),
            str_field(es@, "suite"@),
            str_field(es@, "city"@),
            str_field(es@, "zipcode"@),
        ) {
            (Some(street), Some(suite), Some(city), Some(zipcode)) => match obj_lookup(
                es@,
                "geo"@,
            ) {
                Some(gj) => match geo_of_json(gj) {
                    Some(geo) => Some(AddressV { street, suite, city, zipcode, geo }),
                    None => None,
                },
                None => None,
            },
            _ => None,
        },
        _ => None,
    }
}

/// The company a JSON tree denotes. The wire keys `catchPhrase` and `bs`
/// are matched exactly, casing included.
pub open spec fn company_of_json(j: Json) -> Option<CompanyV> {
    match j {
        Json::Obj(es) => match (
            str_field(es@, "name"@),
            str_field(es@, "catchPhrase"@),
            str_field(es@, "bs"@),
        ) {
            (Some(name), Some(catch_phrase), Some(bs)) => Some(
                CompanyV { name, catch_phrase, bs },
            ),
            _ => None,
        },
        _ => None,
    }
}

/// The user a JSON tree denotes: an object with a numeric `id` that fits a
/// 32-bit integer, the five string fields, and the nested address and
/// company objects. A missing or type-mismatched member leaves the tree
/// without a user; it is never defaulted.
pub open spec fn user_of_json(j: Json) -> Option<UserV> {
    match j {
        Json::Obj(es) => match (
            int_field(es@, "id"@),
            str_field(es@, "name"@),
            str_field(es@, "username"@),
            str_field(es@, "email"@),
            str_field(es@, "phone"@),
            str_field(es@, "website"@),
        ) {
            (Some(id), Some(name), Some(username), Some(email), Some(phone), Some(website)) => {
                if i32::MIN <= id <= i32::MAX {
                    match (obj_lookup(es@, "address"@), obj_lookup(es@, "company"@)) {
                        (Some(aj), Some(cj)) => match (address_of_json(aj), company_of_json(cj)) {
                            (Some(address), Some(company)) => Some(
                                UserV { id, name, username, email, phone, website, address, company },
                            ),
                            _ => None,
                        },
                        _ => None,
                    }
                } else {
                    None
                }
            },
            _ => None,
        },
        _ => None,
    }
}

/// The user list a JSON tree denotes: the users of an array, in array
/// order; any element without a user leaves the array without a list.
pub open spec fn users_of_list(vs: Seq<Json>) -> Option<Seq<UserV>>
    decreases vs.len(),
{
    if vs.len() == 0 {
        Some(Seq::empty())
    } else {
        match (users_of_list(vs.drop_last()), user_of_json(vs.last())) {
            (Some(us), Some(u)) => Some(us.push(u)),
            _ => None,
        }
    }
}

/// The user list a JSON tree denotes, `None` unless the tree is an array
/// of user objects.
pub open spec fn users_of_json(j: Json) -> Option<Seq<UserV>> {
    match j {
        Json::Arr(vs) => users_of_list(vs@),
        _ => None,
    }
}

/// Decodes a geographical point from a JSON tree.
pub fn geo_from_json(j: &Json) -> (r: Option<Geo>)
    ensures
        match r {
            Some(g) => geo_of_json(*j) == Some(g@),
            None => geo_of_json(*j) is None,
        },
{
    match j {
        Json::Obj(es) => {
            let lat = get_str_field(es, "lat");
            let lng = get_str_field(es, "lng");
            match (lat, lng) {
                (Some(lat), Some(lng)) => Some(Geo { lat, lng }),
                _ => None,
            }
        },
        _ => None,
    }
}

/// Decodes an address from a JSON tree.
pub fn address_from_json(j: &Json) -> (r: Option<Address>)
    ensures
        match r {
            Some(a) => address_of_json(*j) == Some(a@),
            None => address_of_json(*j) is None,
        },
{
    match j {
        Json::Obj(es) => {
            let street = get_str_field(es, "street");
            let suite = get_str_field(es, "suite");
            let city = get_str_field(es, "city");
            let zipcode = get_str_field(es, "zipcode");
            match (street, suite, city, zipcode) {
                (Some(street), Some(suite), Some(city), Some(zipcode)) => {
                    match lookup(es, "geo") {
                        Some(gj) => match geo_from_json(gj) {
                            Some(geo) => Some(Address { street, suite, city, zipcode, geo }),
                            None => None,
                        },
                        None => None,
                    }
                },
                _ => None,
            }
        },
        _ => None,
    }
}

/// Decodes a company from a JSON tree.
pub fn company_from_json(j: &Json) -> (r: Option<Company>)
    ensures
        match r {
            Some(c) => company_of_json(*j) == Some(c@),
            None => company_of_json(*j) is None,
        },
{
    match j {
        Json::Obj(es) => {
            let name = get_str_field(es, "name");
            let catch_phrase = get_str_field(es, "catchPhrase");
            let bs = get_str_field(es, "bs");
            match (name, catch_phrase, bs) {
                (Some(name), Some(catch_phrase), Some(bs)) => Some(
                    Company { name, catch_phrase, bs },
                ),
                _ => None,
            }
        },
        _ => None,
    }
}

/// Decodes a user from a JSON tree: the typed value if and only if the
/// tree carries the full user shape.
pub fn user_from_json(j: &Json) -> (r: Option<User>)
    ensures
        match r {
            Some(u) => user_of_json(*j) == Some(u@),
            None => user_of_json(*j) is None,
        },
{
    match j {
        Json::Obj(es) => {
            let id = get_int_field(es, "id");
            let name = get_str_field(es, "name");
            let username = get_str_field(es, "username");
            let email = get_str_field(es, "email");
            let phone = get_str_field(es, "phone");
            let website = get_str_field(es, "website");
            match (id, name, username, email, phone, website) {
                (Some(id), Some(name), Some(username), Some(email), Some(phone), Some(website)) => {
                    if i32::MIN as i64 <= id && id <= i32::MAX as i64 {
                        let address = match lookup(es, "address") {
                            Some(aj) => address_from_json(aj),
                            None => None,
                        };
                        let company = match lookup(es, "company") {
                            Some(cj) => company_from_json(cj),
                            None => None,
                        };
                        match (address, company) {
                            (Some(address), Some(company)) => Some(
                                User {
                                    id: id as i32,
                                    name,
                                    username,
                                    email,
                                    phone,
                                    website,
                                    address,
                                    company,
                                },
                            ),
                            _ => None,
                        }
                    } else {
                        None
                    }
                },
                _ => None,
            }
        },
        _ => None,
    }
}

/// Decodes an ordered user list from a JSON tree, in array order.
pub fn users_from_json(j: &Json) -> (r: Option<Users>)
    ensures
        match r {
            Some(us) => users_of_json(*j) == Some(us@),
            None => users_of_json(*j) is None,
        },
{
    match j {
        Json::Arr(vs) => {
            let mut out: Vec<User> = Vec::new();
            let mut i: usize = 0;
            while i < vs.len()
                invariant
                    0 <= i <= vs@.len(),
                    users_of_json(*j) == users_of_list(vs@),
                    users_of_list(vs@.take(i as int)) == Some(
                        Seq::new(out@.len(), |k: int| out@[k]@),
                    ),
                decreases vs@.len() - i,
            {
                proof {
                    assert(vs@.take(i as int + 1).drop_last() =~= vs@.take(i as int));
                    assert(vs@.take(i as int + 1).last() == vs@[i as int]);
                }
                match user_from_json(&vs[i]) {
                    Some(u) => {
                        out.push(u);
                        proof {
                            assert(Seq::new(out@.len(), |k: int| out@[k]@) =~= Seq::new(
                                (out@.len() - 1) as nat,
                                |k: int| out@[k]@,
                            ).push(out@[out@.len() - 1]@));
                        }
                    },
                    None => {
                        proof {
                            lemma_users_of_list_fails(vs@, i as int);
                        }
                        return None;
                    },
                }
                i = i + 1;
            }
            proof {
                assert(vs@.take(i as int) =~= vs@);
            }
            Some(Users(out))
        },
        _ => None,
    }
}

/// Member `e` carries `key` and the string `val`.
pub open spec fn is_str_member(e: (String, Json), key: Seq<char>, val: Seq<char>) -> bool {
    &&& e.0@ == key
    &&& e.1 matches Json::Str(s) && s@ == val
}

/// The exact tree the encoder produces for a geographical point: the two
/// coordinate strings under their wire keys, in declaration order.
pub open spec fn geo_json_shape(j: Json, g: GeoV) -> bool {
    &&& j matches Json::Obj(es)
    &&& es@.len() == 2
    &&& is_str_member(es@[0], "lat"@, g.lat)
    &&& is_str_member(es@[1], "lng"@, g.lng)
}

/// The exact tree the encoder produces for an address.
pub open spec fn address_json_shape(j: Json, a: AddressV) -> bool {
    &&& j matches Json::Obj(es)
    &&& es@.len() == 5
    &&& is_str_member(es@[0], "street"@, a.street)
    &&& is_str_member(es@[1], "suite"@, a.suite)
    &&& is_str_member(es@[2], "city"@, a.city)
    &&& is_str_member(es@[3], "zipcode"@, a.zipcode)
    &&& es@[4].0@ == "geo"@
    &&& geo_json_shape(es@[4].1, a.geo)
}

/// The exact tree the encoder produces for a company, under the exact
/// wire keys, casing included.
pub open spec fn company_json_shape(j: Json, c: CompanyV) -> bool {
    &&& j matches Json::Obj(es)
    &&& es@.len() == 3
    &&& is_str_member(es@[0], "name"@, c.name)
    &&& is_str_member(es@[1], "catchPhrase"@, c.catch_phrase)
    &&& is_str_member(es@[2], "bs"@, c.bs)
}

/// The exact tree the encoder produces for a user: every declared field
/// under its wire key, in declaration order, and nothing else.
pub open spec fn user_json_shape(j: Json, u: UserV) -> bool {
    &&& j matches Json::Obj(es)
    &&& es@.len() == 8
    &&& es@[0].0@ == "id"@
    &&& es@[0].1 matches Json::Int(i) && i == u.id
    &&& i32::MIN <= u.id <= i32::MAX
    &&& is_str_member(es@[1], "name"@, u.name)
    &&& is_str_member(es@[2], "username"@, u.username)
    &&& is_str_member(es@[3], "email"@, u.email)
    &&& is_str_member(es@[4], "phone"@, u.phone)
    &&& is_str_member(es@[5], "website"@, u.website)
    &&& es@[6].0@ == "address"@
    &&& address_json_shape(es@[6].1, u.address)
    &&& es@[7].0@ == "company"@
    &&& company_json_shape(es@[7].1, u.company)
}

/// A tree in the exact geographical-point shape decodes to that point.
proof fn lemma_geo_shape_decodes(j: Json, g: GeoV)
    requires
        geo_json_shape(j, g),
    ensures
        geo_of_json(j) == Some(g),
{
    reveal_with_fuel(obj_lookup, 4);
    reveal_strlit("lat");
    reveal_strlit("lng");
    let es = j->Obj_0;
    assert("lat"@[1] == 'a' && "lng"@[1] == 'n');
    assert("lat"@ != "lng"@);
    assert(es@.drop_first()[0] == es@[1]);
}

/// A tree in the exact address shape decodes to that address.
proof fn lemma_address_shape_decodes(j: Json, a: AddressV)
    requires
        address_json_shape(j, a),
    ensures
        address_of_json(j) == Some(a),
{
    reveal_with_fuel(obj_lookup, 8);
    reveal_strlit("street");
    reveal_strlit("suite");
    reveal_strlit("city");
    reveal_strlit("zipcode");
    reveal_strlit("geo");
    let es = j->Obj_0;
    assert("street"@[0] == 's' && "suite"@[0] == 's' && "city"@[0] == 'c');
    assert("zipcode"@[0] == 'z' && "geo"@[0] == 'g');
    assert("street"@[1] == 't' && "suite"@[1] == 'u');
    assert(es@.drop_first()[0] == es@[1]);
    assert(es@.drop_first().drop_first()[0] == es@[2]);
    assert(es@.drop_first().drop_first().drop_first()[0] == es@[3]);
    assert(es@.drop_first().drop_first().drop_first().drop_first()[0] == es@[4]);
    lemma_geo_shape_decodes(es@[4].1, a.geo);
}

/// A tree in the exact company shape decodes to that company.
proof fn lemma_company_shape_decodes(j: Json, c: CompanyV)
    requires
        company_json_shape(j, c),
    ensures
        company_of_json(j) == Some(c),
{
    reveal_with_fuel(obj_lookup, 5);
    reveal_strlit("name");
    reveal_strlit("catchPhrase");
    reveal_strlit("bs");
    let es = j->Obj_0;
    assert("name"@[0] == 'n' && "catchPhrase"@[0] == 'c' && "bs"@[0] == 'b');
    assert(es@.drop_first()[0] == es@[1]);
    assert(es@.drop_first().drop_first()[0] == es@[2]);
}

/// Round-trip fidelity: a tree that carries exactly the declared user
/// fields under their wire keys — the tree the encoder builds, and the
/// tree any decoded user came from up to ignored members — decodes to
/// that user, field for field.
pub proof fn lemma_user_round_trip(j: Json, u: UserV)
    requires
        user_json_shape(j, u),
    ensures
        user_of_json(j) == Some(u),
{
    reveal_with_fuel(obj_lookup, 10);
    reveal_strlit("id");
    reveal_strlit("name");
    reveal_strlit("username");
    reveal_strlit("email");
    reveal_strlit("phone");
    reveal_strlit("website");
    reveal_strlit("address");
    reveal_strlit("company");
    let es = j->Obj_0;
    assert("id"@[0] == 'i' && "name"@[0] == 'n' && "username"@[0] == 'u');
    assert("email"@[0] == 'e' && "phone"@[0] == 'p');
    assert("website"@[0] == 'w' && "address"@[0] == 'a' && "company"@[0] == 'c');
    assert(es@.drop_first()[0] == es@[1]);
    assert(es@.drop_first().drop_first()[0] == es@[2]);
    assert(es@.drop_first().drop_first().drop_first()[0] == es@[3]);
    assert(es@.drop_first().drop_first().drop_first().drop_first()[0] == es@[4]);
    assert(es@.drop_first().drop_first().drop_first().drop_first().drop_first()[0] == es@[5]);
    assert(es@.drop_first().drop_first().drop_first().drop_first().drop_first().drop_first()[0]
        == es@[6]);
    assert(es@.drop_first().drop_first().drop_first().drop_first().drop_first().drop_first().drop_first()[0]
        == es@[7]);
    lemma_address_shape_decodes(es@[6].1, u.address);
    lemma_company_shape_decodes(es@[7].1, u.company);
}

/// Encodes a geographical point as the exact tree of its shape.
pub fn encode_geo(g: &Geo) -> (r: Json)
    ensures
        geo_json_shape(r, g@),
        geo_of_json(r) == Some(g@),
{
    let mut es: Vec<(String, Json)> = Vec::new();
    es.push(("lat".to_owned(), Json::Str(g.lat.clone())));
    es.push(("lng".to_owned(), Json::Str(g.lng.clone())));
    let r = Json::Obj(es);
    proof {
        lemma_geo_shape_decodes(r, g@);
    }
    r
}

/// Encodes an address as the exact tree of its shape.
pub fn encode_address(a: &Address) -> (r: Json)
    ensures
        address_json_shape(r, a@),
        address_of_json(r) == Some(a@),
{
    let mut es: Vec<(String, Json)> = Vec::new();
    es.push(("street".to_owned(), Json::Str(a.street.clone())));
    es.push(("suite".to_owned(), Json::Str(a.suite.clone())));
    es.push(("city".to_owned(), Json::Str(a.city.clone())));
    es.push(("zipcode".to_owned(), Json::Str(a.zipcode.clone())));
    es.push(("geo".to_owned(), encode_geo(&a.geo)));
    let r = Json::Obj(es);
    proof {
        lemma_address_shape_decodes(r, a@);
    }
    r
}

/// Encodes a company as the exact tree of its shape.
pub fn encode_company(c: &Company) -> (r: Json)
    ensures
        company_json_shape(r, c@),
        company_of_json(r) == Some(c@),
{
    let mut es: Vec<(String, Json)> = Vec::new();
    es.push(("name".to_owned(), Json::Str(c.name.clone())));
    es.push(("catchPhrase".to_owned(), Json::Str(c.catch_phrase.clone())));
    es.push(("bs".to_owned(), Json::Str(c.bs.clone())));
    let r = Json::Obj(es);
    proof {
        lemma_company_shape_decodes(r, c@);
    }
    r
}

/// Encodes a user as the exact tree of its shape: the tree decodes back
/// to the same record, so nothing is lost in either direction.
pub fn encode_user(u: &User) -> (r: Json)
    ensures
        user_json_shape(r, u@),
        user_of_json(r) == Some(u@),
{
    let mut es: Vec<(String, Json)> = Vec::new();
    es.push(("id".to_owned(), Json::Int(u.id as i64)));
    es.push(("name".to_owned(), Json::Str(u.name.clone())));
    es.push(("username".to_owned(), Json::Str(u.username.clone())));
    es.push(("email".to_owned(), Json::Str(u.email.clone())));
    es.push(("phone".to_owned(), Json::Str(u.phone.clone())));
    es.push(("website".to_owned(), Json::Str(u.website.clone())));
    es.push(("address".to_owned(), encode_address(&u.address)));
    es.push(("company".to_owned(), encode_company(&u.company)));
    let r = Json::Obj(es);
    proof {
        lemma_user_round_trip(r, u@);
    }
    r
}

/// Encodes an ordered user list as an array of the exact user trees: the
/// array decodes back to the same list, in the same order.
pub fn encode_users(us: &Users) -> (r: Json)
    ensures
        users_of_json(r) == Some(us@),
{
    let mut out: Vec<Json> = Vec::new();
    let mut i: usize = 0;
    while i < us.0.len()
        invariant
            0 <= i <= us.0@.len(),
            users_of_list(out@) == Some(us@.take(i as int)),
        decreases us.0@.len() - i,
    {
        let ej = encode_user(&us.0[i]);
        let ghost prev = out@;
        out.push(ej);
        proof {
            assert(out@.drop_last() =~= prev);
            assert(out@.last() == ej);
            assert(us@[i as int] == us.0@[i as int]@);
            assert(us@.take(i as int).push(us@[i as int]) =~= us@.take(i as int + 1));
        }
        i = i + 1;
    }
    proof {
        assert(us@.take(i as int) =~= us@);
    }
    Json::Arr(out)
}

/// An array with an element that is no user denotes no user list.
proof fn lemma_users_of_list_fails(vs: Seq<Json>, i: int)
    requires
        0 <= i < vs.len(),
        user_of_json(vs[i]) is None,
    ensures
        users_of_list(vs) is None,
    decreases vs.len(),
{
    if i == vs.len() - 1 {
    } else {
        lemma_users_of_list_fails(vs.drop_last(), i);
    }
}

} // verus!
