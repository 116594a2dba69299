use password_store::reply::{
    check_generated, check_inserted, read_password, read_usernames, username_of,
};
use password_store::value::{Member, Number, Value};
use password_store::Error;

fn text(value: &str) -> Value {
    Value::Text(value.to_string())
}

fn object(members: &[(&str, Value)]) -> Value {
    let mut list = Vec::new();
    for (name, value) in members {
        let value = match value {
            Value::Text(text) => Value::Text(text.clone()),
            Value::Boolean(flag) => Value::Boolean(*flag),
            Value::Number(number) => Value::Number(*number),
            _ => Value::Null,
        };
        list.push(Member { name: name.to_string(), value });
    }
    Value::Object(list)
}

#[test]
fn username_is_what_follows_the_last_separator() {
    assert_eq!(username_of("a/b/user1"), "user1");
    assert_eq!(username_of("site/user"), "user");
    assert_eq!(username_of("/user"), "user");
}

#[test]
fn username_is_the_whole_path_without_a_separator() {
    assert_eq!(username_of("user2"), "user2");
    assert_eq!(username_of(""), "");
    assert_eq!(username_of("test with spaces"), "test with spaces");
}

#[test]
fn username_is_empty_behind_a_trailing_separator() {
    assert_eq!(username_of("a/b/"), "");
    assert_eq!(username_of("/"), "");
    assert_eq!(username_of("//"), "");
}

#[test]
fn username_counts_characters_not_bytes() {
    assert_eq!(username_of("пароли/почта/иван"), "иван");
    assert_eq!(username_of("é/ü"), "ü");
}

#[test]
fn read_password_takes_the_text_member() {
    let reply = object(&[("username", text("me")), ("password", text("abc"))]);
    assert_eq!(read_password(&reply).unwrap(), "abc");
    assert_eq!(read_password(&object(&[("password", text(""))])).unwrap(), "");
}

#[test]
fn read_password_refuses_a_reply_without_the_member() {
    assert!(matches!(read_password(&object(&[])), Err(Error::InvalidOutput)));
    assert!(matches!(
        read_password(&object(&[("username", text("me"))])),
        Err(Error::InvalidOutput)
    ));
}

#[test]
fn read_password_refuses_a_member_of_the_wrong_type() {
    let seven = Value::Number(Number { nan: false, positive: true, mantissa: 7, exponent: 0 });
    assert!(matches!(read_password(&object(&[("password", seven)])), Err(Error::InvalidOutput)));
    assert!(matches!(
        read_password(&object(&[("password", Value::Null)])),
        Err(Error::InvalidOutput)
    ));
    assert!(matches!(
        read_password(&object(&[("password", Value::Boolean(true))])),
        Err(Error::InvalidOutput)
    ));
}

#[test]
fn read_password_refuses_a_reply_that_is_no_object() {
    assert!(matches!(read_password(&text("abc")), Err(Error::InvalidOutput)));
    assert!(matches!(read_password(&Value::Null), Err(Error::InvalidOutput)));
    assert!(matches!(
        read_password(&Value::Array(vec![text("password"), text("abc")])),
        Err(Error::InvalidOutput)
    ));
}

#[test]
fn read_usernames_maps_each_path_to_its_username() {
    let reply = Value::Array(vec![text("a/b/user1"), text("user2")]);
    assert_eq!(read_usernames(&reply).unwrap(), vec!["user1".to_string(), "user2".to_string()]);
}

#[test]
fn read_usernames_keeps_order_and_repetitions() {
    let reply = Value::Array(vec![text("z/b"), text("y/a"), text("x/b"), text("b")]);
    assert_eq!(read_usernames(&reply).unwrap(), vec!["b", "a", "b", "b"]);
}

#[test]
fn read_usernames_of_an_empty_array_is_empty() {
    assert_eq!(read_usernames(&Value::Array(vec![])).unwrap(), Vec::<String>::new());
}

#[test]
fn read_usernames_refuses_a_reply_that_is_no_array() {
    assert!(matches!(read_usernames(&object(&[])), Err(Error::InvalidOutput)));
    assert!(matches!(
        read_usernames(&object(&[("0", text("a/b/user1"))])),
        Err(Error::InvalidOutput)
    ));
    assert!(matches!(read_usernames(&text("a/b/user1")), Err(Error::InvalidOutput)));
    assert!(matches!(read_usernames(&Value::Null), Err(Error::InvalidOutput)));
}

#[test]
fn read_usernames_refuses_an_item_that_is_no_text() {
    let seven = Value::Number(Number { nan: false, positive: true, mantissa: 7, exponent: 0 });
    assert!(matches!(
        read_usernames(&Value::Array(vec![text("a/user1"), seven])),
        Err(Error::InvalidOutput)
    ));
    assert!(matches!(
        read_usernames(&Value::Array(vec![Value::Null, text("a/user1")])),
        Err(Error::InvalidOutput)
    ));
    assert!(matches!(
        read_usernames(&Value::Array(vec![Value::Array(vec![text("a/user1")])])),
        Err(Error::InvalidOutput)
    ));
}

#[test]
fn check_generated_wants_a_text_member_username() {
    assert!(check_generated(&object(&[("username", text("me"))])).is_ok());
    assert!(check_generated(&object(&[("username", text(""))])).is_ok());
    assert!(matches!(check_generated(&object(&[])), Err(Error::InvalidOutput)));
    assert!(matches!(
        check_generated(&object(&[("password", text("abc"))])),
        Err(Error::InvalidOutput)
    ));
    assert!(matches!(
        check_generated(&object(&[("username", Value::Null)])),
        Err(Error::InvalidOutput)
    ));
    assert!(matches!(check_generated(&Value::Array(vec![])), Err(Error::InvalidOutput)));
}

#[test]
fn check_inserted_accepts_the_echo_of_the_password() {
    assert!(check_inserted(&object(&[("password", text("secret"))]), "secret").is_ok());
    assert!(check_inserted(&object(&[("password", text(""))]), "").is_ok());
}

#[test]
fn check_inserted_accepts_a_reply_without_an_echo() {
    assert!(check_inserted(&object(&[]), "secret").is_ok());
    assert!(check_inserted(&object(&[("username", text("me"))]), "secret").is_ok());
    assert!(check_inserted(&Value::Null, "secret").is_ok());
    assert!(check_inserted(&Value::Array(vec![text("different")]), "secret").is_ok());
}

#[test]
fn check_inserted_accepts_an_echo_that_is_no_text() {
    assert!(check_inserted(&object(&[("password", Value::Null)]), "secret").is_ok());
    assert!(check_inserted(&object(&[("password", Value::Boolean(false))]), "secret").is_ok());
}

#[test]
fn check_inserted_refuses_the_echo_of_another_password() {
    assert!(matches!(
        check_inserted(&object(&[("password", text("different"))]), "secret"),
        Err(Error::InvalidOutput)
    ));
    assert!(matches!(
        check_inserted(&object(&[("password", text("secret "))]), "secret"),
        Err(Error::InvalidOutput)
    ));
    assert!(matches!(
        check_inserted(&object(&[("password", text(""))]), "secret"),
        Err(Error::InvalidOutput)
    ));
}
