use user_intake::json::{parse, Member};
use user_intake::{decode_user_request, DecodeError, Field, Json, UserRequest};

fn text(s: &str) -> Json {
    Json::Text(s.to_string())
}

fn member(key: &str, value: Json) -> Member {
    Member { key: key.to_string(), value }
}

fn ana_members() -> Vec<Member> {
    vec![
        member("name", text("Ana")),
        member("age", Json::Number(Some(30))),
        member("email", text("ana@x.com")),
        member("characteristics", Json::Array(vec![text("curious"), text("kind")])),
    ]
}

fn ana() -> UserRequest {
    UserRequest {
        name: "Ana".to_string(),
        age: 30,
        email: "ana@x.com".to_string(),
        characteristics: vec!["curious".to_string(), "kind".to_string()],
    }
}

fn without(key: &str) -> Json {
    Json::Object(ana_members().into_iter().filter(|m| m.key != key).collect())
}

fn with(key: &str, value: Json) -> Json {
    let mut members: Vec<Member> = ana_members().into_iter().filter(|m| m.key != key).collect();
    members.push(member(key, value));
    Json::Object(members)
}

#[test]
fn field_keys() {
    assert_eq!(Field::Name.key(), "name");
    assert_eq!(Field::Age.key(), "age");
    assert_eq!(Field::Email.key(), "email");
    assert_eq!(Field::Characteristics.key(), "characteristics");
}

#[test]
fn decode_copies_the_four_fields() {
    assert_eq!(decode_user_request(&Json::Object(ana_members())), Ok(ana()));
}

#[test]
fn decode_does_not_mind_the_order_of_members() {
    let mut members = ana_members();
    members.reverse();
    assert_eq!(decode_user_request(&Json::Object(members)), Ok(ana()));
}

#[test]
fn decode_passes_over_other_members() {
    let mut members = ana_members();
    members.insert(0, member("id", Json::Number(Some(7))));
    members.push(member("nickname", Json::Null));
    assert_eq!(decode_user_request(&Json::Object(members)), Ok(ana()));
}

#[test]
fn decode_takes_any_text_and_an_empty_list() {
    let document = Json::Object(vec![
        member("name", text("")),
        member("age", Json::Number(Some(0))),
        member("email", text("not an address")),
        member("characteristics", Json::Array(vec![])),
    ]);
    assert_eq!(
        decode_user_request(&document),
        Ok(UserRequest {
            name: String::new(),
            age: 0,
            email: "not an address".to_string(),
            characteristics: vec![],
        })
    );
}

#[test]
fn decode_takes_ages_up_to_255() {
    let oldest = decode_user_request(&with("age", Json::Number(Some(255)))).unwrap();
    assert_eq!(oldest.age, 255);
    let youngest = decode_user_request(&with("age", Json::Number(Some(0)))).unwrap();
    assert_eq!(youngest.age, 0);
}

#[test]
fn decode_refuses_ages_beyond_255() {
    assert_eq!(
        decode_user_request(&with("age", Json::Number(Some(256)))),
        Err(DecodeError::Mistyped(Field::Age))
    );
    assert_eq!(
        decode_user_request(&with("age", Json::Number(Some(u64::MAX)))),
        Err(DecodeError::Mistyped(Field::Age))
    );
    assert_eq!(
        decode_user_request(&with("age", Json::Number(None))),
        Err(DecodeError::Mistyped(Field::Age))
    );
}

#[test]
fn decode_refuses_what_is_no_object() {
    assert_eq!(decode_user_request(&Json::Null), Err(DecodeError::NotAnObject));
    assert_eq!(decode_user_request(&Json::Bool(true)), Err(DecodeError::NotAnObject));
    assert_eq!(decode_user_request(&Json::Number(Some(30))), Err(DecodeError::NotAnObject));
    assert_eq!(decode_user_request(&text("Ana")), Err(DecodeError::NotAnObject));
    assert_eq!(
        decode_user_request(&Json::Array(vec![
            text("Ana"),
            Json::Number(Some(30)),
            text("ana@x.com"),
            Json::Array(vec![]),
        ])),
        Err(DecodeError::NotAnObject)
    );
}

#[test]
fn decode_names_the_missing_field() {
    assert_eq!(decode_user_request(&without("name")), Err(DecodeError::Missing(Field::Name)));
    assert_eq!(decode_user_request(&without("age")), Err(DecodeError::Missing(Field::Age)));
    assert_eq!(decode_user_request(&without("email")), Err(DecodeError::Missing(Field::Email)));
    assert_eq!(
        decode_user_request(&without("characteristics")),
        Err(DecodeError::Missing(Field::Characteristics))
    );
    assert_eq!(decode_user_request(&Json::Object(vec![])), Err(DecodeError::Missing(Field::Name)));
}

#[test]
fn decode_names_the_mistyped_field() {
    assert_eq!(
        decode_user_request(&with("name", Json::Number(Some(1)))),
        Err(DecodeError::Mistyped(Field::Name))
    );
    assert_eq!(
        decode_user_request(&with("age", text("thirty"))),
        Err(DecodeError::Mistyped(Field::Age))
    );
    assert_eq!(
        decode_user_request(&with("age", text("30"))),
        Err(DecodeError::Mistyped(Field::Age))
    );
    assert_eq!(
        decode_user_request(&with("email", Json::Null)),
        Err(DecodeError::Mistyped(Field::Email))
    );
    assert_eq!(
        decode_user_request(&with("characteristics", text("curious"))),
        Err(DecodeError::Mistyped(Field::Characteristics))
    );
    assert_eq!(
        decode_user_request(&with("characteristics", Json::Object(vec![]))),
        Err(DecodeError::Mistyped(Field::Characteristics))
    );
}

#[test]
fn decode_refuses_a_list_with_an_item_that_is_no_text() {
    assert_eq!(
        decode_user_request(&with(
            "characteristics",
            Json::Array(vec![text("curious"), Json::Number(Some(1))])
        )),
        Err(DecodeError::Mistyped(Field::Characteristics))
    );
    assert_eq!(
        decode_user_request(&with("characteristics", Json::Array(vec![Json::Null, text("kind")]))),
        Err(DecodeError::Mistyped(Field::Characteristics))
    );
    assert_eq!(
        decode_user_request(&with(
            "characteristics",
            Json::Array(vec![Json::Array(vec![text("kind")])])
        )),
        Err(DecodeError::Mistyped(Field::Characteristics))
    );
}

#[test]
fn decode_names_the_first_fault_in_the_order_of_the_fields() {
    let document = Json::Object(vec![
        member("characteristics", Json::Null),
        member("email", Json::Null),
        member("age", text("thirty")),
    ]);
    assert_eq!(decode_user_request(&document), Err(DecodeError::Missing(Field::Name)));
    let document = Json::Object(vec![
        member("characteristics", Json::Null),
        member("email", Json::Null),
        member("age", text("thirty")),
        member("name", text("Bob")),
    ]);
    assert_eq!(decode_user_request(&document), Err(DecodeError::Mistyped(Field::Age)));
    let document = Json::Object(vec![
        member("characteristics", Json::Null),
        member("age", Json::Number(Some(30))),
        member("name", text("Bob")),
    ]);
    assert_eq!(decode_user_request(&document), Err(DecodeError::Missing(Field::Email)));
}

#[test]
fn decode_reads_a_field_from_the_first_member_with_its_key() {
    let mut members = ana_members();
    members.push(member("age", text("thirty")));
    assert_eq!(decode_user_request(&Json::Object(members)), Ok(ana()));
    let mut members = ana_members();
    members.insert(0, member("age", text("thirty")));
    assert_eq!(
        decode_user_request(&Json::Object(members)),
        Err(DecodeError::Mistyped(Field::Age))
    );
}

#[test]
fn decode_reads_what_parse_gives() {
    let document = parse(
        b"{\"characteristics\":[\"curious\",\"kind\"],\"email\":\"ana@x.com\",\"extra\":{\"age\":1},\"age\":30,\"name\":\"Ana\"}",
    )
    .unwrap();
    assert_eq!(decode_user_request(&document), Ok(ana()));
}
