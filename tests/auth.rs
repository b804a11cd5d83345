use shortlink::auth::{authorize, secrets_match};

fn some(s: &str) -> Option<String> {
    Some(s.to_string())
}

#[test]
fn open_service_admits_any_request() {
    assert!(authorize(&None, &None));
    assert!(authorize(&None, &some("anything")));
    assert!(authorize(&None, &some("")));
}

#[test]
fn configured_secret_required() {
    let master = some("topsecret");
    assert!(!authorize(&master, &None));
    assert!(!authorize(&master, &some("wrong")));
    assert!(!authorize(&master, &some("topsecre")));
    assert!(!authorize(&master, &some("topsecretx")));
    assert!(!authorize(&master, &some("TOPSECRET")));
    assert!(authorize(&master, &some("topsecret")));
}

#[test]
fn empty_master_secret_is_still_a_secret() {
    let master = some("");
    assert!(authorize(&master, &some("")));
    assert!(!authorize(&master, &None));
    assert!(!authorize(&master, &some("a")));
}

#[test]
fn secrets_compare_by_content() {
    assert!(secrets_match("", ""));
    assert!(secrets_match("abc", "abc"));
    assert!(!secrets_match("abc", "abd"));
    assert!(!secrets_match("abc", "ab"));
    assert!(!secrets_match("xbc", "abc"));
    assert!(secrets_match("clé-ü", "clé-ü"));
    assert!(!secrets_match("clé", "cle"));
}
