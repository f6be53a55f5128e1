use hackline_gateway::auth::middleware::{
    authenticated, bearer_token, hex_nibble, percent_decode_minimal, presented_token, token_from_query,
};
use hackline_gateway::auth::token::{base64_url_encode, generate, hashes_match, sha256_hex};
use hackline_gateway::db::users::User;

#[test]
fn bearer_header_and_query_fallback() {
    assert_eq!(bearer_token("Bearer abc"), Some("abc".to_string()));
    assert_eq!(bearer_token("Basic abc"), None);
    assert_eq!(bearer_token("Bearer"), None);
    assert_eq!(presented_token(Some("Bearer h"), Some("token=q")).unwrap(), "h");
    assert_eq!(presented_token(Some("Basic h"), Some("a=1&token=q%2Bx")).unwrap(), "q+x");
    assert_eq!(presented_token(None, None).unwrap_err().0, "missing Authorization header");
}

#[test]
fn query_token_decoding() {
    assert_eq!(token_from_query("token=abc"), Some("abc".to_string()));
    assert_eq!(token_from_query("x=1&token=a%3Db+c"), Some("a=b c".to_string()));
    assert_eq!(token_from_query("x=1"), None);
    assert_eq!(token_from_query("x&token=a"), Some("a".to_string()));
    assert_eq!(token_from_query("flag&token=abc"), Some("abc".to_string()));
    assert_eq!(token_from_query("token&x=1"), None);
    assert_eq!(percent_decode_minimal("%2f%zz"), "/%zz");
    assert_eq!(hex_nibble(b'f'), Some(15));
    assert_eq!(hex_nibble(b'G'), None);
}

#[test]
fn tokens_hash_and_compare() {
    assert_eq!(
        sha256_hex("abc"),
        "ba7816bf8f01cfea414140de5dae2223b00361a396177a9cb410ff61f20015ad"
    );
    assert_eq!(base64_url_encode(&[0xfb, 0xff]), "-_8");
    let p = generate();
    assert_eq!(p.raw.len(), 43);
    assert!(hashes_match(&sha256_hex(&p.raw), &p.hash));
    assert!(!hashes_match("ab", "abc"));
}

#[test]
fn unknown_token_is_refused() {
    assert_eq!(authenticated(None).err().unwrap().0, "invalid token");
    let u = User {
        id: 1,
        org_id: 1,
        name: "n".into(),
        role: "owner".into(),
        device_scope: "*".into(),
        tunnel_scope: "*".into(),
        expires_at: None,
        created_at: 0,
        last_used_at: None,
    };
    assert_eq!(authenticated(Some(u)).ok().unwrap().0.id, 1);
}
