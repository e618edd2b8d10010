use base64::Engine;
use hmac::Mac;
use typesensei::keys::{generate_scoped_search_key, GenerateScopedSearchKey, GenerateScopedSearchKeyBuilder};

fn fixed_builder() -> GenerateScopedSearchKeyBuilder {
    GenerateScopedSearchKeyBuilder {
        key: String::from("abcd1234efgh5678"),
        filters: GenerateScopedSearchKey {
            query_by: None,
            filter_by: Some(String::from("company_id:124")),
            exclude_fields: None,
            limit_hits: None,
            expires_at: 1906054106,
        },
    }
}

#[test]
fn scoped_params_render_with_absent_fields_omitted() {
    let builder = fixed_builder();
    assert_eq!(
        builder.filters.to_json(),
        r#"{"filter_by":"company_id:124","expires_at":1906054106}"#
    );

    let full = GenerateScopedSearchKey {
        query_by: Some(String::from("title,author")),
        filter_by: Some(String::from("a:=b")),
        exclude_fields: Some(String::from("secret")),
        limit_hits: Some(100),
        expires_at: 7,
    };
    assert_eq!(
        full.to_json(),
        r#"{"query_by":"title,author","filter_by":"a:=b","exclude_fields":"secret","limit_hits":100,"expires_at":7}"#
    );
}

#[test]
fn scoped_key_matches_an_independent_derivation() {
    // The same derivation done directly against the hmac and base64 crates
    // must agree with the library's.
    let builder = fixed_builder();
    let derived = builder.build().unwrap();

    let params = builder.filters.to_json();
    let mut mac =
        <hmac::Hmac<sha2::Sha256> as hmac::KeyInit>::new_from_slice(builder.key.as_bytes())
            .unwrap();
    mac.update(params.as_bytes());
    let digest =
        base64::engine::general_purpose::STANDARD.encode(mac.finalize().into_bytes());
    let raw = format!("{}{}{}", digest, &builder.key[0..4], params);
    let expected = base64::engine::general_purpose::STANDARD.encode(raw.as_bytes());

    assert_eq!(derived, expected);
}

#[test]
fn scoped_key_embeds_prefix_and_params() {
    let builder = fixed_builder();
    let derived = builder.build().unwrap();
    let decoded = base64::engine::general_purpose::STANDARD.decode(derived).unwrap();
    let decoded = String::from_utf8(decoded).unwrap();
    // 32 tag bytes encode to 44 characters; the key prefix and the
    // parameters follow.
    assert_eq!(&decoded[44..48], "abcd");
    assert_eq!(&decoded[48..], builder.filters.to_json());
}

#[test]
fn builder_accumulates_each_parameter() {
    let builder = generate_scoped_search_key("abcd1234", 60)
        .query_by(&vec![String::from("title"), String::from("author")])
        .filter_by("year:>2000")
        .limit_hits(50)
        .exclude_fields(&vec![String::from("price")]);
    assert_eq!(builder.filters.query_by.as_deref(), Some("title,author"));
    assert_eq!(builder.filters.filter_by.as_deref(), Some("year:>2000"));
    assert_eq!(builder.filters.limit_hits, Some(50));
    assert_eq!(builder.filters.exclude_fields.as_deref(), Some("price"));
    assert!(builder.filters.expires_at > 0);
    assert!(builder.build().is_ok());
}
