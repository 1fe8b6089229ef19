use product_cache::handlers::{
    create_response, del_command, delete_response, fetch, set_command,
};
use product_cache::product::Product;
use product_cache::store::{Command, StoreReply, TransportError};

fn product(id: u64, name: &str) -> Product {
    Product::new(id, name.to_owned())
}

#[test]
fn fetch_echoes_the_product() {
    let r = fetch(&product(1, "a"));
    assert_eq!(r.status, 200);
    assert_eq!(r.body, "{\"id\":1,\"name\":\"a\"}");
}

#[test]
fn fetch_echoes_another_product() {
    let r = fetch(&product(42, "widget"));
    assert_eq!(r.status, 200);
    assert_eq!(r.body, "{\"id\":42,\"name\":\"widget\"}");
}

#[test]
fn create_sends_set_with_decimal_key_and_json_value() {
    // POST {"id":1,"name":"a"} makes the store receive SET 1 {"id":1,"name":"a"}.
    let c = set_command(&product(1, "a"));
    match c {
        Command::Put { key, value } => {
            assert_eq!(key, "1");
            assert_eq!(value, "{\"id\":1,\"name\":\"a\"}");
        }
        _ => panic!("create must issue a SET"),
    }
}

#[test]
fn create_succeeds_on_the_exact_confirmation() {
    let r = create_response(&Ok(StoreReply::Simple("OK".to_owned())));
    assert_eq!(r.status, 200);
    assert_eq!(r.body, "successfully cached values");
}

#[test]
fn create_fails_on_any_other_reply() {
    let replies: Vec<Result<StoreReply, TransportError>> = vec![
        Ok(StoreReply::Simple("ok".to_owned())),
        Ok(StoreReply::Simple("OKAY".to_owned())),
        Ok(StoreReply::Simple(String::new())),
        Ok(StoreReply::Int(1)),
        Ok(StoreReply::Nil),
        Ok(StoreReply::Error("ERR wrong type".to_owned())),
        Ok(StoreReply::Bulk(b"OK".to_vec())),
        Err(TransportError),
    ];
    for reply in replies {
        let r = create_response(&reply);
        assert_eq!(r.status, 500);
        assert_eq!(r.body, "");
    }
}

#[test]
fn delete_sends_del_with_decimal_key() {
    let c = del_command(&product(1, "a"));
    match c {
        Command::Del { key } => assert_eq!(key, "1"),
        _ => panic!("delete must issue a DEL"),
    }
}

#[test]
fn delete_succeeds_only_on_a_count_of_three() {
    let r = delete_response(&Ok(StoreReply::Int(3)));
    assert_eq!(r.status, 200);
    assert_eq!(r.body, "successfully deleted values");

    for count in [0i64, 1, 2, 4, 30] {
        let r = delete_response(&Ok(StoreReply::Int(count)));
        assert_eq!(r.status, 500);
        assert_eq!(r.body, "");
    }
}

#[test]
fn delete_fails_even_when_one_key_was_deleted() {
    // A store that removed the one requested key replies with a count of 1,
    // and the handler still reports a server error.
    let r = delete_response(&Ok(StoreReply::Int(1)));
    assert_eq!(r.status, 500);
    assert_eq!(r.body, "");
}

#[test]
fn delete_fails_on_other_reply_shapes() {
    let replies: Vec<Result<StoreReply, TransportError>> = vec![
        Ok(StoreReply::Simple("OK".to_owned())),
        Ok(StoreReply::Nil),
        Err(TransportError),
    ];
    for reply in replies {
        let r = delete_response(&reply);
        assert_eq!(r.status, 500);
        assert_eq!(r.body, "");
    }
}
