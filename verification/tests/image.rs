use simple_faas_docker::error::{Failure, InvalidReference};
use simple_faas_docker::image::{image_from_url, normalize_image_tag, split_reference, Image};
use simple_faas_docker::v1_37::ImageCreateArgs;
use simple_faas_docker::weburl::UrlParts;

fn image(domain: &str, name: &str, tag: &str, digest: Option<&str>) -> Image {
    Image {
        domain: domain.into(),
        name: name.into(),
        tag: tag.into(),
        digest: digest.map(|d| d.to_string()),
    }
}

#[test]
fn test_normalize_image_tag() {
    assert_eq!(
        normalize_image_tag("ghcr.io/library/hello-world:alpine@1234".into()).unwrap(),
        Image {
            domain: "ghcr.io".into(),
            name: "library/hello-world".into(),
            tag: "alpine".into(),
            digest: Some("1234".into()),
        }
    );

    assert_eq!(
        normalize_image_tag("ghcr.io/library/hello-world:alpine".into()).unwrap(),
        Image {
            domain: "ghcr.io".into(),
            name: "library/hello-world".into(),
            tag: "alpine".into(),
            digest: None,
        }
    );

    assert_eq!(
        normalize_image_tag("ghcr.io/library/hello-world".into()).unwrap(),
        Image {
            domain: "ghcr.io".into(),
            name: "library/hello-world".into(),
            tag: "latest".into(),
            digest: None,
        }
    );

    assert_eq!(
        normalize_image_tag("library/hello-world".into()).unwrap(),
        Image {
            domain: "docker.io".into(),
            name: "library/hello-world".into(),
            tag: "latest".into(),
            digest: None,
        }
    );

    assert_eq!(
        normalize_image_tag("hello-world".into()).unwrap(),
        Image {
            domain: "docker.io".into(),
            name: "library/hello-world".into(),
            tag: "latest".into(),
            digest: None,
        }
    );

    assert!(normalize_image_tag("".into()).is_err());
}

#[test]
fn test_image_create_args_from_image() {
    assert_eq!(
        ImageCreateArgs::from(Image {
            domain: "ghcr.io".into(),
            name: "library/hello-world".into(),
            tag: "alpine".into(),
            digest: None,
        }),
        ImageCreateArgs {
            fromImage: "ghcr.io/library/hello-world".into(),
            tag: "alpine".into(),
        }
    );
}

#[test]
fn empty_reference_is_invalid() {
    assert_eq!(normalize_image_tag(String::new()), Err(InvalidReference::EmptyInput));
}

#[test]
fn bare_names_are_official_images() {
    for name in ["hello-world", "nginx", "a.b_c-1", "x"] {
        assert_eq!(
            normalize_image_tag(name.to_string()),
            Ok(image("docker.io", &format!("library/{}", name), "latest", None))
        );
    }
}

#[test]
fn user_repositories_live_on_the_default_registry() {
    for name in ["user/repo", "a/b", "my-org/my.image"] {
        assert_eq!(
            normalize_image_tag(name.to_string()),
            Ok(image("docker.io", name, "latest", None))
        );
    }
}

#[test]
fn bare_name_that_the_url_parser_rewrites() {
    assert_eq!(
        normalize_image_tag("a b".to_string()),
        Ok(image("docker.io", "library/a%20b", "latest", None))
    );
}

#[test]
fn only_the_last_at_sign_starts_the_digest() {
    assert_eq!(
        normalize_image_tag("ghcr.io/a@b/c@sha256".to_string()),
        Ok(image("ghcr.io", "a@b/c", "latest", Some("sha256")))
    );
}

#[test]
fn only_the_last_colon_starts_the_tag() {
    assert_eq!(
        normalize_image_tag("registry.local:5000/team/app:v2".to_string()),
        Ok(image("registry.local", "team/app", "v2", None))
    );
}

#[test]
fn digest_is_split_off_before_the_tag() {
    assert_eq!(
        normalize_image_tag("app:1.0@sha256:abcd".to_string()),
        Ok(image("docker.io", "library/app", "1.0", Some("sha256:abcd")))
    );
}

#[test]
fn explicit_scheme_is_kept() {
    assert_eq!(
        normalize_image_tag("http://ghcr.io/team/app:tag".to_string()),
        Ok(image("ghcr.io", "team/app", "tag", None))
    );
}

#[test]
fn address_host_is_the_registry_domain() {
    assert_eq!(
        normalize_image_tag("10.0.0.5/team/app".to_string()),
        Ok(image("10.0.0.5", "team/app", "latest", None))
    );
}

#[test]
fn unparsable_reference_is_invalid() {
    assert_eq!(normalize_image_tag("a b/c/d".to_string()), Err(InvalidReference::NotAUrl));
}

#[test]
fn reference_without_a_name_is_invalid() {
    assert_eq!(normalize_image_tag("a/b/..".to_string()), Err(InvalidReference::EmptyName));
}

#[test]
fn name_may_not_begin_with_a_slash() {
    assert_eq!(normalize_image_tag("x//".to_string()), Err(InvalidReference::RootedName));
    assert_eq!(normalize_image_tag("/b".to_string()), Err(InvalidReference::RootedName));
}

#[test]
fn split_reference_gives_url_tag_and_digest() {
    assert_eq!(
        split_reference("hello-world"),
        ("https://docker.io/library/hello-world".to_string(), "latest".to_string(), None)
    );
    assert_eq!(
        split_reference("user/repo:1@d"),
        ("https://docker.io/user/repo".to_string(), "1".to_string(), Some("d".to_string()))
    );
    assert_eq!(
        split_reference("ghcr.io/a/b"),
        ("https://ghcr.io/a/b".to_string(), "latest".to_string(), None)
    );
    assert_eq!(
        split_reference("https://ghcr.io/a/b:t"),
        ("https://ghcr.io/a/b".to_string(), "t".to_string(), None)
    );
    assert_eq!(split_reference("a:"), ("https://docker.io/library/a".to_string(), String::new(), None));
    assert_eq!(
        split_reference("a@"),
        ("https://docker.io/library/a".to_string(), "latest".to_string(), Some(String::new()))
    );
}

#[test]
fn image_from_url_strips_one_slash_and_defaults_the_registry() {
    let parts = UrlParts { host: None, path: "/library/x".to_string() };
    assert_eq!(
        image_from_url(parts, "t".to_string(), None),
        Ok(image("docker.io", "library/x", "t", None))
    );
    let parts = UrlParts { host: Some("ghcr.io".to_string()), path: "a/b".to_string() };
    assert_eq!(
        image_from_url(parts, "t".to_string(), Some("d".to_string())),
        Ok(image("ghcr.io", "a/b", "t", Some("d")))
    );
    let parts = UrlParts { host: Some("ghcr.io".to_string()), path: String::new() };
    assert_eq!(image_from_url(parts, "t".to_string(), None), Err(InvalidReference::EmptyName));
    let parts = UrlParts { host: Some("ghcr.io".to_string()), path: "/".to_string() };
    assert_eq!(image_from_url(parts, "t".to_string(), None), Err(InvalidReference::EmptyName));
    let parts = UrlParts { host: Some("ghcr.io".to_string()), path: "//a".to_string() };
    assert_eq!(image_from_url(parts, "t".to_string(), None), Err(InvalidReference::RootedName));
}

#[test]
fn pull_arguments_join_domain_and_name() {
    for reference in ["hello-world", "user/repo:1", "ghcr.io/library/hello-world:alpine"] {
        let image = normalize_image_tag(reference.to_string()).unwrap();
        let expected = format!("{}/{}", image.domain, image.name);
        let tag = image.tag.clone();
        let args = ImageCreateArgs::try_from(image).unwrap();
        assert_eq!(args.fromImage, expected);
        assert_eq!(args.tag, tag);
    }
}

#[test]
fn pull_arguments_of_a_digest_are_unsupported() {
    let image = normalize_image_tag("ghcr.io/library/hello-world:alpine@1234".to_string()).unwrap();
    assert_eq!(ImageCreateArgs::try_from(image), Err(Failure::UnsupportedConversion));
}
