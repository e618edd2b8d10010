use typesensei::response::{
    import_into_res, Error, ImportResponse, MatchedToken, NodeConfig, TypesenseResult,
};

fn ok_line() -> ImportResponse {
    ImportResponse { success: true, error: None, document: None }
}

fn failed_line(detail: &str) -> ImportResponse {
    ImportResponse {
        success: false,
        error: Some(String::from(detail)),
        document: Some(String::from("{}")),
    }
}

#[test]
fn all_successful_imports_are_ok() {
    assert!(import_into_res("create", vec![]).is_ok());
    assert!(import_into_res("create", vec![ok_line(), ok_line()]).is_ok());
}

#[test]
fn failed_imports_are_reported_with_their_positions() {
    let res = import_into_res("upsert", vec![ok_line(), failed_line("bad"), ok_line(), failed_line("worse")]);
    match res {
        Err(Error::BatchActionFailed { action, errors }) => {
            assert_eq!(action, "upsert");
            assert_eq!(errors.len(), 2);
            assert_eq!(errors[0].0, 1);
            assert_eq!(errors[0].1.error.as_deref(), Some("bad"));
            assert_eq!(errors[1].0, 3);
            assert_eq!(errors[1].1.error.as_deref(), Some("worse"));
        }
        other => panic!("unexpected result: {:?}", other),
    }
}

#[test]
fn engine_messages_become_errors() {
    let message: TypesenseResult<u32> =
        TypesenseResult::Message { message: String::from("not found") };
    match message.into_res() {
        Err(Error::TypesenseError { message }) => assert_eq!(message, "not found"),
        other => panic!("unexpected result: {:?}", other),
    }

    let response: TypesenseResult<u32> = TypesenseResult::Response(5);
    assert_eq!(response.into_res().unwrap(), 5);
}

#[test]
fn matched_tokens_distinguish_single_and_many() {
    let single = MatchedToken::Token(String::from("word"));
    assert!(single.is_token());
    assert!(!single.is_tokens());
    assert_eq!(single.get_token().map(String::as_str), Some("word"));
    assert!(single.get_tokens().is_none());
    assert_eq!(single.clone().take_token().as_deref(), Some("word"));
    assert!(single.take_tokens().is_none());

    let many = MatchedToken::Tokens(vec![String::from("a"), String::from("b")]);
    assert!(many.is_tokens());
    assert!(many.get_token().is_none());
    assert_eq!(many.get_tokens().map(Vec::len), Some(2));
    assert_eq!(many.take_tokens().map(|t| t.len()), Some(2));
}

#[test]
fn urls_join_hostname_and_segments() {
    let path = vec![String::from("collections"), String::from("books"), String::from("documents")];
    assert_eq!(
        typesensei::response::join_url("http://localhost:8108", &path),
        "http://localhost:8108/collections/books/documents"
    );
    assert_eq!(typesensei::response::join_url("h", &Vec::new()), "h");
}

#[test]
fn batch_bodies_put_one_document_per_line() {
    let lines = vec![String::from("{\"a\":1}"), String::from("{\"b\":2}")];
    assert_eq!(
        typesensei::response::ndjson_join(&lines),
        "{\"a\":1}\n{\"b\":2}\n"
    );
    assert_eq!(typesensei::response::ndjson_join(&Vec::new()), "");
}

#[test]
fn node_config_builds_from_parts() {
    let node = NodeConfig::from((String::from("localhost"), 8108u16, String::from("http")));
    assert_eq!(node.host, "localhost");
    assert_eq!(node.port, 8108);
    assert_eq!(node.protocol, "http");
}
