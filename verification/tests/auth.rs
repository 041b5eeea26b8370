use simple_faas_docker::auth::{
    read_auth, read_entries, resolve, DockerAuth, DockerConfig, RawDockerAuth, RawDockerConfig,
};
use simple_faas_docker::error::{CredentialDecodeError, LoginFileError};
use simple_faas_docker::image::Image;

fn auth(username: &str, password: &str) -> DockerAuth {
    DockerAuth { username: username.into(), password: password.into() }
}

fn raw(entries: &[(&str, &str)]) -> RawDockerConfig {
    RawDockerConfig {
        auths: entries
            .iter()
            .map(|(domain, token)| (domain.to_string(), RawDockerAuth { auth: token.to_string() }))
            .collect(),
    }
}

fn image(domain: &str, name: &str, tag: &str, digest: Option<&str>) -> Image {
    Image {
        domain: domain.into(),
        name: name.into(),
        tag: tag.into(),
        digest: digest.map(|d| d.to_string()),
    }
}

#[test]
fn test_read_auth() {
    let source = r#"{
            "auths": {
                "ghcr.io": {
                        "auth": "MTIzOjEyMw=="
                },
                "registry.gitlab.com": {
                        "auth": "MzIxOjMyMQ=="
                }
            }
        }"#;

    let result = read_auth(source).unwrap();
    let mut expected = DockerConfig::new();
    expected.insert(
        "ghcr.io".into(),
        DockerAuth {
            username: "123".into(),
            password: "123".into(),
        },
    );
    expected.insert(
        "registry.gitlab.com".into(),
        DockerAuth {
            username: "321".into(),
            password: "321".into(),
        },
    );

    assert_eq!(result, expected);
}

#[test]
fn login_file_may_hold_more_than_tokens() {
    let source = r#"{
        "auths": {"ghcr.io": {"auth": "MTIzOjEyMw==", "email": "a@b.c"}},
        "credsStore": "desktop"
    }"#;
    let store = read_auth(source).unwrap();
    assert_eq!(store.len(), 1);
    assert_eq!(store.get("ghcr.io"), Some(&auth("123", "123")));
}

#[test]
fn login_file_without_entries_is_an_empty_store() {
    assert_eq!(read_auth(r#"{"auths": {}}"#), Ok(DockerConfig::new()));
}

#[test]
fn login_file_without_auths_is_rejected() {
    for source in ["", "not json", "[]", "{}", r#"{"auths": []}"#, r#"{"auths": "x"}"#] {
        assert_eq!(read_auth(source), Err(LoginFileError::NoAuths));
    }
}

#[test]
fn login_entry_without_token_is_rejected() {
    for source in [
        r#"{"auths": {"ghcr.io": {}}}"#,
        r#"{"auths": {"ghcr.io": {"auth": 7}}}"#,
        r#"{"auths": {"ghcr.io": "MTIzOjEyMw=="}}"#,
        r#"{"auths": {"a.io": {"auth": "***"}, "b.io": {}}}"#,
    ] {
        assert_eq!(read_auth(source), Err(LoginFileError::NoToken));
    }
}

#[test]
fn login_entry_with_a_bad_token_is_rejected() {
    assert_eq!(
        read_auth(r#"{"auths": {"ghcr.io": {"auth": "***"}}}"#),
        Err(LoginFileError::Token(CredentialDecodeError::NotBase64))
    );
    assert_eq!(
        read_auth(r#"{"auths": {"ghcr.io": {"auth": "bm9jb2xvbg=="}}}"#),
        Err(LoginFileError::Token(CredentialDecodeError::NoSeparator))
    );
    assert_eq!(
        read_auth(r#"{"auths": {"ghcr.io": {"auth": "//46eA=="}}}"#),
        Err(LoginFileError::Token(CredentialDecodeError::NotUtf8))
    );
}

#[test]
fn entries_are_read_from_the_members_of_auths() {
    let members = vec![
        ("ghcr.io".to_string(), r#"{"auth":"MTIzOjEyMw=="}"#.to_string()),
        ("b.io".to_string(), r#"{"auth":"x","email":"e"}"#.to_string()),
    ];
    assert_eq!(read_entries(&members), Some(raw(&[("ghcr.io", "MTIzOjEyMw=="), ("b.io", "x")])));
    assert_eq!(read_entries(&Vec::new()), Some(raw(&[])));
    let lacking = vec![("ghcr.io".to_string(), r#"{"token":"x"}"#.to_string())];
    assert_eq!(read_entries(&lacking), None);
}

#[test]
fn login_file_failures_are_described_in_words() {
    assert_eq!(LoginFileError::NoAuths.describe(), "Registry login file holds no auths");
    assert_eq!(LoginFileError::NoToken.describe(), "Registry login entry holds no auth token");
    assert_eq!(
        LoginFileError::Token(CredentialDecodeError::NotUtf8).describe(),
        "Registry auth token is not UTF-8"
    );
}

#[test]
fn entries_decode_to_a_store() {
    let source = raw(&[("ghcr.io", "MTIzOjEyMw=="), ("registry.gitlab.com", "MzIxOjMyMQ==")]);
    let result = DockerConfig::try_from(source).unwrap();
    let mut expected = DockerConfig::new();
    expected.insert("registry.gitlab.com".into(), auth("321", "321"));
    expected.insert("ghcr.io".into(), auth("123", "123"));
    assert_eq!(result, expected);
}

#[test]
fn token_decodes_to_user_and_password() {
    assert_eq!(
        DockerAuth::try_from(RawDockerAuth { auth: "MTIzOjEyMw==".into() }),
        Ok(auth("123", "123"))
    );
}

#[test]
fn first_colon_separates_user_and_password() {
    assert_eq!(
        DockerAuth::try_from(RawDockerAuth { auth: "dXNlcjpwYTpzcw==".into() }),
        Ok(auth("user", "pa:ss"))
    );
    assert_eq!(DockerAuth::from_text("user:pa:ss"), Ok(auth("user", "pa:ss")));
    assert_eq!(DockerAuth::from_text(":"), Ok(auth("", "")));
    assert_eq!(DockerAuth::from_text("ü:ö"), Ok(auth("ü", "ö")));
}

#[test]
fn token_without_separator_is_rejected() {
    assert_eq!(
        DockerAuth::try_from(RawDockerAuth { auth: "bm9jb2xvbg==".into() }),
        Err(CredentialDecodeError::NoSeparator)
    );
    assert_eq!(DockerAuth::from_text("nocolon"), Err(CredentialDecodeError::NoSeparator));
    assert_eq!(DockerAuth::from_text(""), Err(CredentialDecodeError::NoSeparator));
}

#[test]
fn token_that_is_not_base64_is_rejected() {
    assert_eq!(
        DockerAuth::try_from(RawDockerAuth { auth: "***".into() }),
        Err(CredentialDecodeError::NotBase64)
    );
}

#[test]
fn token_that_is_not_utf8_is_rejected() {
    assert_eq!(
        DockerAuth::try_from(RawDockerAuth { auth: "//46eA==".into() }),
        Err(CredentialDecodeError::NotUtf8)
    );
    assert_eq!(DockerAuth::from_bytes(vec![0xff, 0xfe, 0x3a, 0x78]), Err(CredentialDecodeError::NotUtf8));
}

#[test]
fn bytes_decode_as_utf8() {
    assert_eq!(DockerAuth::from_bytes("ü:ö".as_bytes().to_vec()), Ok(auth("ü", "ö")));
    assert_eq!(
        DockerAuth::try_from(RawDockerAuth { auth: "w7w6w7Y=".into() }),
        Ok(auth("ü", "ö"))
    );
}

#[test]
fn store_decodes_every_entry() {
    let store = DockerConfig::try_from(raw(&[("a.io", "MTIzOjEyMw=="), ("b.io", "MzIxOjMyMQ==")])).unwrap();
    assert_eq!(store.len(), 2);
    assert_eq!(store.get("a.io"), Some(&auth("123", "123")));
    assert_eq!(store.get("b.io"), Some(&auth("321", "321")));
    assert_eq!(store.get("c.io"), None);
    assert_eq!(store.domains(), vec!["a.io".to_string(), "b.io".to_string()]);
}

#[test]
fn store_of_no_entries_is_empty() {
    let store = DockerConfig::try_from(raw(&[])).unwrap();
    assert_eq!(store.len(), 0);
    assert_eq!(store, DockerConfig::new());
    assert_eq!(DockerConfig::default(), DockerConfig::new());
}

#[test]
fn first_bad_entry_decides_the_error() {
    assert_eq!(
        DockerConfig::try_from(raw(&[("a.io", "MTIzOjEyMw=="), ("b.io", "bm9jb2xvbg=="), ("c.io", "***")])),
        Err(CredentialDecodeError::NoSeparator)
    );
    assert_eq!(
        DockerConfig::try_from(raw(&[("c.io", "***"), ("b.io", "bm9jb2xvbg==")])),
        Err(CredentialDecodeError::NotBase64)
    );
}

#[test]
fn later_entry_for_a_domain_stays() {
    let store = DockerConfig::try_from(raw(&[("a.io", "MTIzOjEyMw=="), ("a.io", "MzIxOjMyMQ==")])).unwrap();
    assert_eq!(store.len(), 1);
    assert_eq!(store.get("a.io"), Some(&auth("321", "321")));
}

#[test]
fn insert_replaces_the_credential_of_a_domain() {
    let mut store = DockerConfig::new();
    store.insert("a.io".into(), auth("u", "p"));
    store.insert("b.io".into(), auth("v", "q"));
    store.insert("a.io".into(), auth("w", "r"));
    assert_eq!(store.len(), 2);
    assert_eq!(store.get("a.io"), Some(&auth("w", "r")));
    assert_eq!(store.get("b.io"), Some(&auth("v", "q")));
    let copy = store.clone();
    assert_eq!(copy, store);
}

#[test]
fn resolve_finds_nothing_for_an_unknown_domain() {
    let mut store = DockerConfig::new();
    store.insert("ghcr.io".into(), auth("123", "123"));
    assert_eq!(resolve(&store, &image("docker.io", "library/hello-world", "latest", None)), None);
    assert_eq!(resolve(&DockerConfig::new(), &image("ghcr.io", "a/b", "latest", None)), None);
}

#[test]
fn resolve_returns_what_was_stored_for_the_domain() {
    let mut store = DockerConfig::new();
    store.insert("ghcr.io".into(), auth("123", "123"));
    store.insert("registry.gitlab.com".into(), auth("321", "321"));
    assert_eq!(
        resolve(&store, &image("ghcr.io", "library/hello-world", "latest", None)),
        Some(&auth("123", "123"))
    );
    assert_eq!(
        resolve(&store, &image("registry.gitlab.com", "a/b", "latest", None)),
        Some(&auth("321", "321"))
    );
}

#[test]
fn resolve_ignores_name_tag_and_digest() {
    let mut store = DockerConfig::new();
    store.insert("ghcr.io".into(), auth("123", "123"));
    let plain = resolve(&store, &image("ghcr.io", "a/b", "latest", None)).cloned();
    let tagged = resolve(&store, &image("ghcr.io", "c/d", "alpine", None)).cloned();
    let pinned = resolve(&store, &image("ghcr.io", "a/b", "alpine", Some("1234"))).cloned();
    assert_eq!(plain, Some(auth("123", "123")));
    assert_eq!(plain, tagged);
    assert_eq!(plain, pinned);
}

#[test]
fn registry_auth_header_is_base64_of_json() {
    assert_eq!(
        auth("123", "123").registry_auth_header(),
        "eyJ1c2VybmFtZSI6IjEyMyIsInBhc3N3b3JkIjoiMTIzIn0="
    );
}

#[test]
fn registry_auth_header_escapes_as_json_does() {
    assert_eq!(
        auth("a\"b", "p\\w\n").registry_auth_header(),
        "eyJ1c2VybmFtZSI6ImFcImIiLCJwYXNzd29yZCI6InBcXHdcbiJ9"
    );
}

#[test]
fn credential_json_is_framed_from_quoted_strings() {
    assert_eq!(
        DockerAuth::frame_json("\"u\"", "\"p\""),
        "{\"username\":\"u\",\"password\":\"p\"}"
    );
}

#[test]
fn stores_are_equal_whatever_the_order_of_insertion() {
    let mut one = DockerConfig::new();
    one.insert("a.io".into(), auth("u", "p"));
    one.insert("b.io".into(), auth("v", "q"));
    let mut other = DockerConfig::new();
    other.insert("b.io".into(), auth("v", "q"));
    other.insert("a.io".into(), auth("u", "p"));
    assert_eq!(one, other);
    other.insert("a.io".into(), auth("u", "changed"));
    assert_ne!(one, other);
    other.insert("a.io".into(), auth("u", "p"));
    other.insert("c.io".into(), auth("w", "r"));
    assert_ne!(one, other);
    assert_ne!(other, one);
}
