//! Image references and their canonical form.

use crate::error::InvalidReference;
use crate::text::{
    chars_of, count_char, find_last, is_last, last_index, lemma_last_unique,
    lemma_occurrences_concat, lemma_occurrences_zero, occurrences, starts_with,
};
use crate::weburl::{parse_url, url_parts, UrlParts, UrlPartsView};
use vstd::prelude::*;
use vstd::string::*;

verus! {

/// A canonical image reference.
#[derive(Debug, PartialEq, Eq)]
pub struct Image {
    pub domain: String,
    pub name: String,
    pub tag: String,
    pub digest: Option<String>,
}

/// An image reference as sequences of characters.
pub struct ImageView {
    pub domain: Seq<char>,
    pub name: Seq<char>,
    pub tag: Seq<char>,
    pub digest: Option<Seq<char>>,
}

impl ImageView {
    /// The name is not empty and does not begin with a slash.
    pub open spec fn wf(self) -> bool {
        self.name.len() > 0 && self.name[0] != '/'
    }
}

impl View for Image {
    type V = ImageView;

    open spec fn view(&self) -> ImageView {
        ImageView {
            domain: self.domain@,
            name: self.name@,
            tag: self.tag@,
            digest: match self.digest {
                Some(d) => Some(d@),
                None => None,
            },
        }
    }
}

impl Image {
    /// The name is not empty and does not begin with a slash.
    pub open spec fn wf(&self) -> bool {
        self@.wf()
    }
}

impl Clone for Image {
    fn clone(&self) -> (copy: Image)
        ensures
            copy@ == self@,
    {
        Image {
            domain: self.domain.clone(),
            name: self.name.clone(),
            tag: self.tag.clone(),
            digest: match &self.digest {
                Some(d) => Some(d.clone()),
                None => None,
            },
        }
    }
}

/// What follows the last `@`, where there is one.
pub open spec fn digest_part(raw: Seq<char>) -> Option<Seq<char>> {
    if raw.contains('@') {
        Some(raw.skip(last_index(raw, '@') + 1))
    } else {
        None
    }
}

/// What stands before the last `@`, or all of `raw` where there is none.
pub open spec fn without_digest(raw: Seq<char>) -> Seq<char> {
    if raw.contains('@') {
        raw.take(last_index(raw, '@'))
    } else {
        raw
    }
}

/// What follows the last `:`, or `latest` where there is none.
pub open spec fn tag_part(s: Seq<char>) -> Seq<char> {
    if s.contains(':') {
        s.skip(last_index(s, ':') + 1)
    } else {
        "latest"@
    }
}

/// What stands before the last `:`, or all of `s` where there is none.
pub open spec fn without_tag(s: Seq<char>) -> Seq<char> {
    if s.contains(':') {
        s.take(last_index(s, ':'))
    } else {
        s
    }
}

/// A repository path without a slash is an official image.
pub open spec fn with_namespace(s: Seq<char>) -> Seq<char> {
    if occurrences(s, '/') == 0 {
        "library/"@ + s
    } else {
        s
    }
}

/// A repository path with one slash lives on the default registry.
pub open spec fn with_registry(s: Seq<char>) -> Seq<char> {
    if occurrences(s, '/') == 1 {
        "docker.io/"@ + s
    } else {
        s
    }
}

/// A repository path is read as an `https` URL unless it names a scheme.
pub open spec fn with_scheme(s: Seq<char>) -> Seq<char> {
    if "http://"@.is_prefix_of(s) || "https://"@.is_prefix_of(s) {
        s
    } else {
        "https://"@ + s
    }
}

/// The tag of the reference `raw`.
pub open spec fn reference_tag(raw: Seq<char>) -> Seq<char> {
    tag_part(without_digest(raw))
}

/// The URL that the reference `raw` is read from.
pub open spec fn reference_url(raw: Seq<char>) -> Seq<char> {
    with_scheme(with_registry(with_namespace(without_tag(without_digest(raw)))))
}

/// A URL path without its one leading slash.
pub open spec fn name_of_path(path: Seq<char>) -> Seq<char> {
    if path.len() > 0 && path[0] == '/' {
        path.skip(1)
    } else {
        path
    }
}

/// The registry that a URL's host names: the default one where there is no
/// host.
pub open spec fn registry_of(host: Option<Seq<char>>) -> Seq<char> {
    match host {
        Some(h) => h,
        None => "docker.io"@,
    }
}

/// The image that host and path of a URL stand for: the host names the
/// registry and the path, without its leading slash, the image. A path that
/// leaves no name, or a name that begins with a slash, is no image.
pub open spec fn image_of(parts: UrlPartsView, tag: Seq<char>, digest: Option<Seq<char>>) -> Result<
    ImageView,
    InvalidReference,
> {
    let name = name_of_path(parts.path);
    if name.len() == 0 {
        Err(InvalidReference::EmptyName)
    } else if name[0] == '/' {
        Err(InvalidReference::RootedName)
    } else {
        Ok(
            ImageView {
                domain: registry_of(parts.host),
                name,
                tag,
                digest,
            },
        )
    }
}

/// The canonical form of the reference `raw`, given what the URL parser
/// made of `reference_url(raw)`.
pub open spec fn normalized(raw: Seq<char>, parsed: Option<UrlPartsView>) -> Result<
    ImageView,
    InvalidReference,
> {
    if raw.len() == 0 {
        Err(InvalidReference::EmptyInput)
    } else {
        match parsed {
            None => Err(InvalidReference::NotAUrl),
            Some(parts) => image_of(parts, reference_tag(raw), digest_part(raw)),
        }
    }
}

/// The canonical form of the reference `raw`, with the URL parser's reading
/// of its URL.
pub open spec fn normal_form(raw: Seq<char>) -> Result<ImageView, InvalidReference> {
    normalized(raw, url_parts(reference_url(raw)))
}

/// `res` is the executable form of `expected`.
pub open spec fn image_result_is(
    res: Result<Image, InvalidReference>,
    expected: Result<ImageView, InvalidReference>,
) -> bool {
    match res {
        Ok(image) => expected == Ok::<ImageView, InvalidReference>(image@),
        Err(e) => expected == Err::<ImageView, InvalidReference>(e),
    }
}

/// The URL parser accepted the text and read registry `domain` and image
/// `name` from it.
pub open spec fn reads_as(parsed: Option<UrlPartsView>, domain: Seq<char>, name: Seq<char>) -> bool {
    parsed matches Some(parts) && registry_of(parts.host) == domain && name_of_path(parts.path)
        == name
}

/// A sequence that ends in its only `c` holds `c` once.
proof fn lemma_one_at_end(s: Seq<char>, c: char)
    requires
        s.len() > 0,
        s.last() == c,
        !s.drop_last().contains(c),
    ensures
        occurrences(s, c) == 1,
{
    lemma_occurrences_zero(s.drop_last(), c);
}

/// A reference without `@` and `:` has no digest and the tag `latest`.
proof fn lemma_plain_reference(s: Seq<char>)
    requires
        !s.contains(':'),
        !s.contains('@'),
    ensures
        digest_part(s) is None,
        reference_tag(s) == "latest"@,
        without_tag(without_digest(s)) == s,
{
}

/// The URL of a path on the default registry.
proof fn lemma_default_registry_url(path: Seq<char>)
    ensures
        with_scheme("docker.io/"@ + path) == "https://docker.io/"@ + path,
{
    reveal_strlit("docker.io/");
    reveal_strlit("http://");
    reveal_strlit("https://");
    reveal_strlit("https://docker.io/");
    let located = "docker.io/"@ + path;
    assert(located[0] == 'd');
    assert("http://"@[0] == 'h');
    assert("https://"@[0] == 'h');
    assert(!"http://"@.is_prefix_of(located)) by {
        if "http://"@.is_prefix_of(located) {
            assert(located.subrange(0, 7)[0] == "http://"@[0]);
        }
    }
    assert(!"https://"@.is_prefix_of(located)) by {
        if "https://"@.is_prefix_of(located) {
            assert(located.subrange(0, 8)[0] == "https://"@[0]);
        }
    }
    assert("https://"@ + located =~= "https://docker.io/"@ + path);
}

/// Every reference that normalises gives a well-formed image: its name is
/// not empty and does not begin with a slash. The image has a digest
/// exactly where the reference holds an `@`, and the tag `latest` where
/// nothing before the digest holds a `:`.
pub proof fn lemma_normalized_image(raw: Seq<char>, parsed: Option<UrlPartsView>)
    requires
        normalized(raw, parsed) is Ok,
    ensures
        normalized(raw, parsed)->Ok_0.wf(),
        normalized(raw, parsed)->Ok_0.digest is Some <==> raw.contains('@'),
        !without_digest(raw).contains(':') ==> normalized(raw, parsed)->Ok_0.tag == "latest"@,
        raw.len() > 0,
        parsed is Some,
{
}

/// A bare name, without `:`, `@` and `/`, is read from the URL
/// `https://docker.io/library/` followed by the name. It is normalised to
/// the official image of that name on `docker.io`, at tag `latest` and
/// without digest, exactly where the URL parser reads host and path as they
/// are written.
pub proof fn lemma_bare_name(s: Seq<char>, parsed: Option<UrlPartsView>)
    requires
        s.len() > 0,
        !s.contains(':'),
        !s.contains('@'),
        !s.contains('/'),
    ensures
        reference_url(s) == "https://docker.io/library/"@ + s,
        reads_as(parsed, "docker.io"@, "library/"@ + s) <==> normalized(s, parsed) == Ok::<
            ImageView,
            InvalidReference,
        >(ImageView { domain: "docker.io"@, name: "library/"@ + s, tag: "latest"@, digest: None }),
        reads_as(url_parts(reference_url(s)), "docker.io"@, "library/"@ + s) <==> normal_form(s)
            == Ok::<ImageView, InvalidReference>(
            ImageView { domain: "docker.io"@, name: "library/"@ + s, tag: "latest"@, digest: None },
        ),
{
    lemma_plain_reference(s);
    lemma_occurrences_zero(s, '/');
    reveal_strlit("library/");
    reveal_strlit("https://docker.io/");
    reveal_strlit("https://docker.io/library/");
    let named = "library/"@ + s;
    assert(with_namespace(s) == named);
    assert(occurrences(named, '/') == 1) by {
        lemma_occurrences_concat("library/"@, s, '/');
        assert(!"library/"@.drop_last().contains('/'));
        lemma_one_at_end("library/"@, '/');
    }
    lemma_default_registry_url(named);
    assert("https://docker.io/"@ + named =~= "https://docker.io/library/"@ + s);
    assert(named[0] == 'l');
}

/// A reference of the form `a/b`, with one slash and without `:` and `@`,
/// is read from the URL `https://docker.io/` followed by the reference. It
/// is normalised to itself on `docker.io`, at tag `latest` and without
/// digest, exactly where it does not begin with the slash and the URL
/// parser reads host and path as they are written.
pub proof fn lemma_user_repository(s: Seq<char>, parsed: Option<UrlPartsView>)
    requires
        occurrences(s, '/') == 1,
        !s.contains(':'),
        !s.contains('@'),
    ensures
        reference_url(s) == "https://docker.io/"@ + s,
        (s[0] != '/' && reads_as(parsed, "docker.io"@, s)) <==> normalized(s, parsed) == Ok::<
            ImageView,
            InvalidReference,
        >(ImageView { domain: "docker.io"@, name: s, tag: "latest"@, digest: None }),
        (s[0] != '/' && reads_as(url_parts(reference_url(s)), "docker.io"@, s)) <==> normal_form(s)
            == Ok::<ImageView, InvalidReference>(
            ImageView { domain: "docker.io"@, name: s, tag: "latest"@, digest: None },
        ),
{
    lemma_plain_reference(s);
    lemma_default_registry_url(s);
}

/// Splits `s` at its last `c`: what stands before it and what follows it.
fn split_at_last(s: &str, c: char) -> (r: Option<(String, String)>)
    ensures
        r is Some <==> s@.contains(c),
        r matches Some(pair) ==> pair.0@ == s@.take(last_index(s@, c)) && pair.1@ == s@.skip(
            last_index(s@, c) + 1,
        ),
{
    let chars = chars_of(s);
    match find_last(&chars, c) {
        Some(i) => {
            assert(is_last(chars@, c, i as int));
            assert(i < chars.len());
            proof {
                lemma_last_unique(s@, c, i as int);
            }
            let head = s.substring_char(0, i);
            let tail = s.substring_char(i + 1, chars.len());
            Some((String::from_str(head), String::from_str(tail)))
        },
        None => None,
    }
}

/// The URL that a reference is read from, its tag and its digest.
pub fn split_reference(raw: &str) -> (r: (String, String, Option<String>))
    ensures
        r.0@ == reference_url(raw@),
        r.1@ == reference_tag(raw@),
        r.2 is Some <==> digest_part(raw@) is Some,
        r.2 matches Some(d) ==> digest_part(raw@) == Some(d@),
{
    let (rest, digest) = match split_at_last(raw, '@') {
        Some(pair) => (pair.0, Some(pair.1)),
        None => (String::from_str(raw), None),
    };
    let (path, tag) = match split_at_last(rest.as_str(), ':') {
        Some(pair) => (pair.0, pair.1),
        None => (rest, String::from_str("latest")),
    };
    let named = if count_char(&chars_of(path.as_str()), '/') == 0 {
        String::from_str("library/").concat(path.as_str())
    } else {
        path
    };
    let located = if count_char(&chars_of(named.as_str()), '/') == 1 {
        String::from_str("docker.io/").concat(named.as_str())
    } else {
        named
    };
    let chars = chars_of(located.as_str());
    let url = if starts_with(&chars, &chars_of("http://")) || starts_with(&chars, &chars_of("https://")) {
        located
    } else {
        String::from_str("https://").concat(located.as_str())
    };
    (url, tag, digest)
}

/// Reads an image from the host and path of the reference's URL.
pub fn image_from_url(parts: UrlParts, tag: String, digest: Option<String>) -> (res: Result<
    Image,
    InvalidReference,
>)
    ensures
        image_result_is(
            res,
            image_of(
                parts@,
                tag@,
                match digest {
                    Some(d) => Some(d@),
                    None => None,
                },
            ),
        ),
        res matches Ok(image) ==> image.wf(),
{
    let path = chars_of(parts.path.as_str());
    let name = if path.len() > 0 && path[0] == '/' {
        String::from_str(parts.path.as_str().substring_char(1, path.len()))
    } else {
        parts.path
    };
    let name_chars = chars_of(name.as_str());
    if name_chars.len() == 0 {
        return Err(InvalidReference::EmptyName);
    }
    if name_chars[0] == '/' {
        return Err(InvalidReference::RootedName);
    }
    let domain = match parts.host {
        Some(h) => h,
        None => String::from_str("docker.io"),
    };
    Ok(Image { domain, name, tag, digest })
}

/// Brings an image reference into canonical form.
///
/// The reference is split at its last `@` and its last `:`, qualified with
/// the default namespace and registry, and read as a URL: the URL's host is
/// the registry domain and its path, without the leading slash, the name.
pub fn normalize_image_tag(tag: String) -> (res: Result<Image, InvalidReference>)
    ensures
        image_result_is(res, normal_form(tag@)),
        res matches Ok(image) ==> image.wf(),
{
    if tag.as_str().is_empty() {
        return Err(InvalidReference::EmptyInput);
    }
    let (url, image_tag, digest) = split_reference(tag.as_str());
    match parse_url(url.as_str()) {
        Ok(parts) => image_from_url(parts, image_tag, digest),
        Err(_) => Err(InvalidReference::NotAUrl),
    }
}

} // verus!
