use user_repo::client::{decode_user_body, decode_users_body, Error};
use user_repo::codec::{encode_user, encode_users, user_from_json, users_from_json};
use user_repo::json::Json;
use user_repo::model::{Address, Company, Geo, User, Users};

fn leanne_body() -> &'static str {
    "{\"id\":1,\"name\":\"Leanne Graham\",\"username\":\"Bret\",\"email\":\"Sincere@april.biz\",\
     \"phone\":\"1-770-736-8031\",\"website\":\"hildegard.org\",\
     \"address\":{\"street\":\"Kulas Light\",\"suite\":\"Apt. 556\",\"city\":\"Gwenborough\",\
     \"zipcode\":\"92998-3874\",\"geo\":{\"lat\":\"-37.3159\",\"lng\":\"81.1496\"}},\
     \"company\":{\"name\":\"Romaguera-Crona\",\"catchPhrase\":\"Multi-layered client-server neural-net\",\
     \"bs\":\"harness real-time e-markets\"}}"
}

fn leanne_user() -> User {
    User {
        id: 1,
        name: "Leanne Graham".to_string(),
        username: "Bret".to_string(),
        email: "Sincere@april.biz".to_string(),
        phone: "1-770-736-8031".to_string(),
        website: "hildegard.org".to_string(),
        address: Address {
            street: "Kulas Light".to_string(),
            suite: "Apt. 556".to_string(),
            city: "Gwenborough".to_string(),
            zipcode: "92998-3874".to_string(),
            geo: Geo { lat: "-37.3159".to_string(), lng: "81.1496".to_string() },
        },
        company: Company {
            name: "Romaguera-Crona".to_string(),
            catch_phrase: "Multi-layered client-server neural-net".to_string(),
            bs: "harness real-time e-markets".to_string(),
        },
    }
}

#[test]
fn decodes_single_user_body() {
    let user = decode_user_body(leanne_body()).expect("a well-formed user body must decode");
    assert_eq!(user.name, "Leanne Graham");
    assert_eq!(user.address.geo.lat, "-37.3159");
    assert_eq!(user, leanne_user());
}

#[test]
fn decodes_user_list_in_order() {
    let first = leanne_body();
    let second = first.replace("\"id\":1", "\"id\":2").replace("Leanne Graham", "Ervin Howell");
    let body = format!("[{},{}]", first, second);
    let Users(users) = decode_users_body(&body).expect("an array of two users must decode");
    assert_eq!(users.len(), 2);
    assert_eq!(users[0].id, 1);
    assert_eq!(users[0].name, "Leanne Graham");
    assert_eq!(users[1].id, 2);
    assert_eq!(users[1].name, "Ervin Howell");
}

#[test]
fn missing_email_is_a_decode_error() {
    let body = leanne_body().replace("\"email\":\"Sincere@april.biz\",", "");
    let r = decode_user_body(&body);
    assert!(matches!(r, Err(Error::Decode(_))));
}

#[test]
fn malformed_json_is_a_decode_error() {
    let r = decode_user_body("{\"id\":1,");
    assert!(matches!(r, Err(Error::Decode(_))));
    let r = decode_users_body("not json at all");
    assert!(matches!(r, Err(Error::Decode(_))));
}

#[test]
fn non_array_body_is_no_user_list() {
    let r = decode_users_body(leanne_body());
    assert!(matches!(r, Err(Error::Decode(_))));
}

#[test]
fn mistyped_email_is_a_decode_error() {
    let body = leanne_body().replace("\"Sincere@april.biz\"", "7");
    let r = decode_user_body(&body);
    assert!(matches!(r, Err(Error::Decode(_))));
}

#[test]
fn id_beyond_i32_is_a_decode_error() {
    let body = leanne_body().replace("\"id\":1", "\"id\":4294967296");
    let r = decode_user_body(&body);
    assert!(matches!(r, Err(Error::Decode(_))));
}

#[test]
fn unknown_members_are_ignored() {
    let body = leanne_body().replace("\"id\":1", "\"id\":1,\"role\":\"admin\"");
    let user = decode_user_body(&body).expect("extra members must not break decoding");
    assert_eq!(user, leanne_user());
}

#[test]
fn encode_then_decode_round_trips() {
    let user = leanne_user();
    let tree = encode_user(&user);
    let back = user_from_json(&tree).expect("an encoded user must decode");
    assert_eq!(back, user);
}

#[test]
fn encoded_user_carries_exact_wire_keys() {
    let tree = encode_user(&leanne_user());
    let Json::Obj(members) = tree else {
        panic!("an encoded user must be an object");
    };
    let keys: Vec<&str> = members.iter().map(|(k, _)| k.as_str()).collect();
    assert_eq!(
        keys,
        vec!["id", "name", "username", "email", "phone", "website", "address", "company"]
    );
    let Json::Obj(company) = &members[7].1 else {
        panic!("the company member must be an object");
    };
    assert_eq!(company[1].0, "catchPhrase");
    assert!(matches!(&company[1].1, Json::Str(s) if s == "Multi-layered client-server neural-net"));
}

#[test]
fn decode_then_encode_reproduces_the_fields() {
    let user = decode_user_body(leanne_body()).expect("a well-formed user body must decode");
    let tree = encode_user(&user);
    let again = user_from_json(&tree).expect("the re-encoded tree must decode");
    assert_eq!(again, user);
}

#[test]
fn user_list_round_trips_in_order() {
    let mut second = leanne_user();
    second.id = 2;
    second.name = "Ervin Howell".to_string();
    let list = Users(vec![leanne_user(), second]);
    let tree = encode_users(&list);
    let back = users_from_json(&tree).expect("an encoded list must decode");
    assert_eq!(back, list);
}

#[test]
fn empty_array_is_an_empty_list() {
    let Users(users) = decode_users_body("[]").expect("an empty array must decode");
    assert!(users.is_empty());
}

#[test]
fn list_with_one_bad_element_is_a_decode_error() {
    let body = format!("[{},{}]", leanne_body(), "{\"id\":3}");
    let r = decode_users_body(&body);
    assert!(matches!(r, Err(Error::Decode(_))));
}

#[test]
fn users_from_json_rejects_non_array_tree() {
    assert!(users_from_json(&Json::Null).is_none());
    assert!(user_from_json(&Json::Bool(true)).is_none());
}
