//! Registry credentials: decoding login tokens, the credential store and
//! the lookup by registry domain.

use crate::codec::{
    base64_decode, base64_decoded, base64_encode, base64_encoded, json_member, json_members,
    json_object_members, json_quote, json_quoted, json_text_member, text_pairs,
};
use crate::error::{CredentialDecodeError, LoginFileError};
use crate::image::{Image, ImageView};
use crate::text::{chars_of, find_first, first_index, is_first, lemma_first_unique, same_text};
use vstd::prelude::*;
use vstd::std_specs::cmp::PartialEqSpecImpl;
use vstd::string::*;
use vstd::utf8::{decode_utf8, encode_utf8, encode_utf8_decode_utf8, valid_utf8};

verus! {

/// User and password for one registry.
#[derive(Default, Debug, Clone, PartialEq, Eq)]
pub struct DockerAuth {
    pub username: String,
    pub password: String,
}

/// User and password as sequences of characters.
pub struct Credential {
    pub username: Seq<char>,
    pub password: Seq<char>,
}

impl View for DockerAuth {
    type V = Credential;

    open spec fn view(&self) -> Credential {
        Credential { username: self.username@, password: self.password@ }
    }
}

/// One entry of a registry login file: the base64 of `user:password`.
#[derive(Default, Debug, Clone, PartialEq, Eq)]
pub struct RawDockerAuth {
    pub auth: String,
}

/// The entries of a registry login file: registry domain and login token,
/// in the order in which they are to be read.
#[derive(Default, Debug, Clone, PartialEq, Eq)]
pub struct RawDockerConfig {
    pub auths: Vec<(String, RawDockerAuth)>,
}

impl View for RawDockerConfig {
    type V = Seq<(Seq<char>, Seq<char>)>;

    open spec fn view(&self) -> Seq<(Seq<char>, Seq<char>)> {
        Seq::new(self.auths@.len(), |i: int| (self.auths@[i].0@, self.auths@[i].1.auth@))
    }
}

/// The credential that the text `user:password` stands for. The first `:`
/// separates the two.
pub open spec fn credential_of_text(text: Seq<char>) -> Result<Credential, CredentialDecodeError> {
    if text.contains(':') {
        Ok(
            Credential {
                username: text.take(first_index(text, ':')),
                password: text.skip(first_index(text, ':') + 1),
            },
        )
    } else {
        Err(CredentialDecodeError::NoSeparator)
    }
}

/// The credential that the UTF-8 bytes of `user:password` stand for.
pub open spec fn credential_of_bytes(bytes: Seq<u8>) -> Result<Credential, CredentialDecodeError> {
    if valid_utf8(bytes) {
        credential_of_text(decode_utf8(bytes))
    } else {
        Err(CredentialDecodeError::NotUtf8)
    }
}

/// The credential of a login token, given the bytes that base64 decoding
/// made of it.
pub open spec fn credential_of_token(decoded: Option<Seq<u8>>) -> Result<
    Credential,
    CredentialDecodeError,
> {
    match decoded {
        Some(bytes) => credential_of_bytes(bytes),
        None => Err(CredentialDecodeError::NotBase64),
    }
}

/// `res` is the executable form of `expected`.
pub open spec fn credential_result_is(
    res: Result<DockerAuth, CredentialDecodeError>,
    expected: Result<Credential, CredentialDecodeError>,
) -> bool {
    match res {
        Ok(auth) => expected == Ok::<Credential, CredentialDecodeError>(auth@),
        Err(e) => expected == Err::<Credential, CredentialDecodeError>(e),
    }
}

/// The JSON object that carries a credential to the engine.
pub open spec fn credential_json(quoted_username: Seq<char>, quoted_password: Seq<char>) -> Seq<
    char,
> {
    "{\"username\":"@ + quoted_username + ",\"password\":"@ + quoted_password + "}"@
}

/// The value of the registry-auth header for a credential: the base64 of
/// its JSON object.
pub open spec fn registry_auth_text(credential: Credential) -> Seq<char> {
    base64_encoded(
        encode_utf8(
            credential_json(json_quoted(credential.username), json_quoted(credential.password)),
        ),
    )
}

/// A text holds a credential exactly where it holds a `:`. The text
/// `user:password` holds that user and that password, whatever the
/// password, as long as the user holds no `:`.
pub proof fn lemma_credential_of_text(username: Seq<char>, password: Seq<char>, text: Seq<char>)
    ensures
        credential_of_text(text) is Ok <==> text.contains(':'),
        !text.contains(':') ==> credential_of_text(text) == Err::<
            Credential,
            CredentialDecodeError,
        >(CredentialDecodeError::NoSeparator),
        !username.contains(':') ==> credential_of_text(username + ":"@ + password) == Ok::<
            Credential,
            CredentialDecodeError,
        >(Credential { username, password }),
{
    if !username.contains(':') {
        reveal_strlit(":");
        let joined = username + ":"@ + password;
        let i = username.len() as int;
        assert(joined[i] == ':');
        assert forall|j: int| 0 <= j < i implies joined[j] != ':' by {
            assert(joined[j] == username[j]);
        }
        assert(is_first(joined, ':', i));
        lemma_first_unique(joined, ':', i);
        assert(joined.take(i) =~= username);
        assert(joined.skip(i + 1) =~= password);
    }
}

impl DockerAuth {
    /// Reads `user:password`.
    pub fn from_text(text: &str) -> (res: Result<DockerAuth, CredentialDecodeError>)
        ensures
            credential_result_is(res, credential_of_text(text@)),
    {
        let chars = chars_of(text);
        match find_first(&chars, ':') {
            Some(i) => {
                assert(is_first(chars@, ':', i as int));
                assert(i < chars.len());
                proof {
                    lemma_first_unique(text@, ':', i as int);
                }
                let username = String::from_str(text.substring_char(0, i));
                let password = String::from_str(text.substring_char(i + 1, chars.len()));
                Ok(DockerAuth { username, password })
            },
            None => Err(CredentialDecodeError::NoSeparator),
        }
    }

    /// Reads the UTF-8 bytes of `user:password`.
    pub fn from_bytes(bytes: Vec<u8>) -> (res: Result<DockerAuth, CredentialDecodeError>)
        ensures
            credential_result_is(res, credential_of_bytes(bytes@)),
    {
        match String::from_utf8(bytes) {
            Ok(text) => {
                proof {
                    encode_utf8_decode_utf8(text@);
                }
                DockerAuth::from_text(text.as_str())
            },
            Err(_) => Err(CredentialDecodeError::NotUtf8),
        }
    }

    /// Decodes one entry of a registry login file.
    pub fn try_from(raw: RawDockerAuth) -> (res: Result<DockerAuth, CredentialDecodeError>)
        ensures
            credential_result_is(res, credential_of_token(base64_decoded(raw.auth@))),
    {
        match base64_decode(raw.auth.as_str()) {
            Ok(bytes) => DockerAuth::from_bytes(bytes),
            Err(_) => Err(CredentialDecodeError::NotBase64),
        }
    }

    /// Frames the JSON object of a credential from the JSON string literals
    /// of user and password.
    pub fn frame_json(quoted_username: &str, quoted_password: &str) -> (json: String)
        ensures
            json@ == credential_json(quoted_username@, quoted_password@),
    {
        String::from_str("{\"username\":").concat(quoted_username).concat(",\"password\":").concat(
            quoted_password,
        ).concat("}")
    }

    /// The value of the registry-auth header that carries this credential.
    pub fn registry_auth_header(&self) -> (header: String)
        ensures
            header@ == registry_auth_text(self@),
    {
        // A string always serialises: the other arm is never taken.
        let username = match json_quote(self.username.as_str()) {
            Ok(quoted) => quoted,
            Err(_) => String::new(),
        };
        let password = match json_quote(self.password.as_str()) {
            Ok(quoted) => quoted,
            Err(_) => String::new(),
        };
        let json = DockerAuth::frame_json(username.as_str(), password.as_str());
        base64_encode(json.as_str().as_bytes())
    }
}

/// The credentials of the registries, by registry domain. No domain has two
/// entries. Two stores are equal where they hold the same credentials for
/// the same domains.
#[derive(Debug)]
pub struct DockerConfig {
    auths: Vec<(String, DockerAuth)>,
}

/// Entry `i` is the one for `domain`.
spec fn holds_at(entries: Seq<(String, DockerAuth)>, i: int, domain: Seq<char>) -> bool {
    0 <= i < entries.len() && entries[i].0@ == domain
}

/// No domain has two entries.
spec fn distinct_domains(entries: Seq<(String, DockerAuth)>) -> bool {
    forall|i: int, j: int|
        0 <= i < entries.len() && 0 <= j < entries.len() && #[trigger] entries[i].0@
            == #[trigger] entries[j].0@ ==> i == j
}

/// The mapping that the entries stand for.
spec fn store_of(entries: Seq<(String, DockerAuth)>) -> Map<Seq<char>, Credential> {
    Map::new(
        |d: Seq<char>| exists|i: int| holds_at(entries, i, d),
        |d: Seq<char>| entries[choose|i: int| holds_at(entries, i, d)].1@,
    )
}

/// Among distinct entries, the one for a domain is what the mapping holds
/// for it.
proof fn lemma_store_entry(entries: Seq<(String, DockerAuth)>, i: int)
    requires
        distinct_domains(entries),
        0 <= i < entries.len(),
    ensures
        store_of(entries).contains_key(entries[i].0@),
        store_of(entries)[entries[i].0@] == entries[i].1@,
{
    let d = entries[i].0@;
    assert(holds_at(entries, i, d));
    let k = choose|k: int| holds_at(entries, k, d);
    assert(entries[k].0@ == entries[i].0@);
}

/// Replacing the entry of a domain replaces what the mapping holds for it.
proof fn lemma_store_update(
    entries: Seq<(String, DockerAuth)>,
    i: int,
    domain: String,
    auth: DockerAuth,
)
    requires
        distinct_domains(entries),
        holds_at(entries, i, domain@),
    ensures
        distinct_domains(entries.update(i, (domain, auth))),
        store_of(entries.update(i, (domain, auth))) == store_of(entries).insert(domain@, auth@),
{
    let after = entries.update(i, (domain, auth));
    assert forall|a: int, b: int|
        0 <= a < after.len() && 0 <= b < after.len() && #[trigger] after[a].0@
            == #[trigger] after[b].0@ implies a == b by {
        assert(after[a].0@ == entries[a].0@);
        assert(after[b].0@ == entries[b].0@);
    }
    assert forall|d: Seq<char>| #[trigger]
        store_of(after).contains_key(d) <==> store_of(entries).insert(
            domain@,
            auth@,
        ).contains_key(d) by {
        if store_of(after).contains_key(d) {
            let k = choose|k: int| holds_at(after, k, d);
            assert(holds_at(entries, k, d));
        }
        if store_of(entries).contains_key(d) {
            let k = choose|k: int| holds_at(entries, k, d);
            assert(holds_at(after, k, d));
        }
        if d == domain@ {
            assert(holds_at(after, i, d));
        }
    }
    assert forall|d: Seq<char>| #[trigger] store_of(after).contains_key(d) implies store_of(
        after,
    )[d] == store_of(entries).insert(domain@, auth@)[d] by {
        let k = choose|k: int| holds_at(after, k, d);
        lemma_store_entry(after, k);
        if k != i {
            assert(holds_at(entries, k, d));
            lemma_store_entry(entries, k);
            assert(entries[k].0@ != entries[i].0@);
        }
    }
    assert(store_of(after) =~= store_of(entries).insert(domain@, auth@));
}

/// Adding an entry for a new domain adds it to the mapping.
proof fn lemma_store_push(entries: Seq<(String, DockerAuth)>, domain: String, auth: DockerAuth)
    requires
        distinct_domains(entries),
        forall|i: int| !holds_at(entries, i, domain@),
    ensures
        distinct_domains(entries.push((domain, auth))),
        store_of(entries.push((domain, auth))) == store_of(entries).insert(domain@, auth@),
        !store_of(entries).contains_key(domain@),
{
    let after = entries.push((domain, auth));
    let n = entries.len() as int;
    assert forall|a: int, b: int|
        0 <= a < after.len() && 0 <= b < after.len() && #[trigger] after[a].0@
            == #[trigger] after[b].0@ implies a == b by {
        if a < n {
            assert(after[a].0@ == entries[a].0@);
            assert(!holds_at(entries, a, domain@));
        }
        if b < n {
            assert(after[b].0@ == entries[b].0@);
            assert(!holds_at(entries, b, domain@));
        }
    }
    assert forall|d: Seq<char>| #[trigger]
        store_of(after).contains_key(d) <==> store_of(entries).insert(
            domain@,
            auth@,
        ).contains_key(d) by {
        if store_of(after).contains_key(d) {
            let k = choose|k: int| holds_at(after, k, d);
            if k < n {
                assert(holds_at(entries, k, d));
            }
        }
        if store_of(entries).contains_key(d) {
            let k = choose|k: int| holds_at(entries, k, d);
            assert(holds_at(after, k, d));
        }
        if d == domain@ {
            assert(holds_at(after, n, d));
        }
    }
    assert forall|d: Seq<char>| #[trigger] store_of(after).contains_key(d) implies store_of(
        after,
    )[d] == store_of(entries).insert(domain@, auth@)[d] by {
        let k = choose|k: int| holds_at(after, k, d);
        lemma_store_entry(after, k);
        if k < n {
            assert(holds_at(entries, k, d));
            lemma_store_entry(entries, k);
        }
    }
    assert(store_of(after) =~= store_of(entries).insert(domain@, auth@));
    if store_of(entries).contains_key(domain@) {
        let k = choose|k: int| holds_at(entries, k, domain@);
        assert(holds_at(entries, k, domain@));
    }
}

/// Distinct entries stand for as many domains as there are entries.
proof fn lemma_store_len(entries: Seq<(String, DockerAuth)>)
    requires
        distinct_domains(entries),
    ensures
        store_of(entries).dom().finite(),
        store_of(entries).dom().len() == entries.len(),
    decreases entries.len(),
{
    if entries.len() == 0 {
        assert(store_of(entries).dom() =~= Set::<Seq<char>>::empty());
    } else {
        let rest = entries.drop_last();
        let last = entries.last();
        assert forall|a: int, b: int|
            0 <= a < rest.len() && 0 <= b < rest.len() && #[trigger] rest[a].0@
                == #[trigger] rest[b].0@ implies a == b by {
            assert(entries[a].0@ == entries[b].0@);
        }
        assert forall|i: int| !holds_at(rest, i, last.0@) by {
            if holds_at(rest, i, last.0@) {
                assert(entries[i].0@ == entries[entries.len() - 1].0@);
            }
        }
        lemma_store_len(rest);
        lemma_store_push(rest, last.0, last.1);
        assert(rest.push((last.0, last.1)) =~= entries);
        assert(store_of(entries).dom() =~= store_of(rest).dom().insert(last.0@));
    }
}

impl View for DockerConfig {
    type V = Map<Seq<char>, Credential>;

    closed spec fn view(&self) -> Map<Seq<char>, Credential> {
        store_of(self.auths@)
    }
}

impl Clone for DockerConfig {
    fn clone(&self) -> (copy: DockerConfig)
        ensures
            copy@ == self@,
    {
        proof {
            use_type_invariant(self);
        }
        let mut entries: Vec<(String, DockerAuth)> = Vec::new();
        let mut i: usize = 0;
        while i < self.auths.len()
            invariant
                i <= self.auths.len(),
                entries@ == self.auths@.take(i as int),
            decreases self.auths.len() - i,
        {
            let domain = self.auths[i].0.clone();
            let auth = DockerAuth {
                username: self.auths[i].1.username.clone(),
                password: self.auths[i].1.password.clone(),
            };
            entries.push((domain, auth));
            assert(entries@ =~= self.auths@.take(i + 1));
            i = i + 1;
        }
        assert(entries@ =~= self.auths@);
        DockerConfig { auths: entries }
    }
}

impl PartialEq for DockerConfig {
    fn eq(&self, other: &DockerConfig) -> (r: bool) {
        proof {
            use_type_invariant(self);
            use_type_invariant(other);
            lemma_store_len(self.auths@);
            lemma_store_len(other.auths@);
        }
        if self.auths.len() != other.auths.len() {
            return false;
        }
        let mut i: usize = 0;
        while i < self.auths.len()
            invariant
                i <= self.auths.len(),
                distinct_domains(self.auths@),
                forall|j: int|
                    0 <= j < i ==> {
                        &&& other@.contains_key(#[trigger] self.auths@[j].0@)
                        &&& other@[self.auths@[j].0@] == self.auths@[j].1@
                    },
            decreases self.auths.len() - i,
        {
            proof {
                lemma_store_entry(self.auths@, i as int);
            }
            match other.get(self.auths[i].0.as_str()) {
                Some(auth) => {
                    if !(auth.username == self.auths[i].1.username && auth.password
                        == self.auths[i].1.password) {
                        return false;
                    }
                },
                None => {
                    return false;
                },
            }
            i = i + 1;
        }
        proof {
            assert forall|d: Seq<char>| self@.contains_key(d) implies other@.contains_key(d)
                && other@[d] == self@[d] by {
                let k = choose|k: int| holds_at(self.auths@, k, d);
                assert(self.auths@[k].0@ == d);
                lemma_store_entry(self.auths@, k);
            }
            assert(self@.dom().subset_of(other@.dom()));
            vstd::set_lib::lemma_subset_equality(self@.dom(), other@.dom());
            assert(self@ =~= other@);
        }
        true
    }
}

impl Eq for DockerConfig {}

impl PartialEqSpecImpl for DockerConfig {
    open spec fn obeys_eq_spec() -> bool {
        true
    }

    open spec fn eq_spec(&self, other: &DockerConfig) -> bool {
        self@ == other@
    }
}

impl Default for DockerConfig {
    fn default() -> (store: DockerConfig)
        ensures
            store@ == Map::<Seq<char>, Credential>::empty(),
    {
        DockerConfig::new()
    }
}

/// The store that the entries of a login file decode to, given how base64
/// decoding reads each token. The first token that does not decode decides
/// the error; of two entries for one domain the later stays.
pub open spec fn decoded_store(entries: Seq<(Seq<char>, Seq<char>)>) -> Result<
    Map<Seq<char>, Credential>,
    CredentialDecodeError,
>
    decreases entries.len(),
{
    if entries.len() == 0 {
        Ok(Map::empty())
    } else {
        match decoded_store(entries.drop_last()) {
            Err(e) => Err(e),
            Ok(store) => match credential_of_token(base64_decoded(entries.last().1)) {
                Err(e) => Err(e),
                Ok(credential) => Ok(store.insert(entries.last().0, credential)),
            },
        }
    }
}

/// The credential for the registry of `image`, where the store holds one.
pub open spec fn resolved(store: Map<Seq<char>, Credential>, image: ImageView) -> Option<
    Credential,
> {
    if store.contains_key(image.domain) {
        Some(store[image.domain])
    } else {
        None
    }
}

impl DockerConfig {
    #[verifier::type_invariant]
    closed spec fn well_formed(&self) -> bool {
        distinct_domains(self.auths@)
    }

    /// The store without credentials.
    pub fn new() -> (store: DockerConfig)
        ensures
            store@ == Map::<Seq<char>, Credential>::empty(),
    {
        let store = DockerConfig { auths: Vec::new() };
        assert(store@ =~= Map::<Seq<char>, Credential>::empty());
        store
    }

    /// The position of the entry for `domain`.
    fn position(&self, domain: &str) -> (r: Option<usize>)
        ensures
            r matches Some(i) ==> holds_at(self.auths@, i as int, domain@),
            r is None ==> forall|i: int| !holds_at(self.auths@, i, domain@),
    {
        let mut i: usize = 0;
        while i < self.auths.len()
            invariant
                i <= self.auths.len(),
                forall|j: int| 0 <= j < i ==> !holds_at(self.auths@, j, domain@),
            decreases self.auths.len() - i,
        {
            if same_text(self.auths[i].0.as_str(), domain) {
                return Some(i);
            }
            i = i + 1;
        }
        None
    }

    /// The credential stored for `domain`.
    pub fn get(&self, domain: &str) -> (r: Option<&DockerAuth>)
        ensures
            r is Some <==> self@.contains_key(domain@),
            r matches Some(auth) ==> auth@ == self@[domain@],
    {
        proof {
            use_type_invariant(self);
        }
        match self.position(domain) {
            Some(i) => {
                proof {
                    lemma_store_entry(self.auths@, i as int);
                }
                Some(&self.auths[i].1)
            },
            None => {
                assert(!self@.contains_key(domain@));
                None
            },
        }
    }

    /// Stores `auth` for `domain`, in place of what was stored for it.
    pub fn insert(&mut self, domain: String, auth: DockerAuth)
        ensures
            final(self)@ == old(self)@.insert(domain@, auth@),
    {
        proof {
            use_type_invariant(&*self);
        }
        let found = self.position(domain.as_str());
        let mut entries: Vec<(String, DockerAuth)> = Vec::new();
        std::mem::swap(&mut self.auths, &mut entries);
        match found {
            Some(i) => {
                proof {
                    lemma_store_update(entries@, i as int, domain, auth);
                }
                entries.set(i, (domain, auth));
            },
            None => {
                proof {
                    lemma_store_push(entries@, domain, auth);
                }
                entries.push((domain, auth));
            },
        }
        self.auths = entries;
    }

    /// How many registries have a credential.
    pub fn len(&self) -> (n: usize)
        ensures
            self@.dom().finite(),
            n == self@.dom().len(),
    {
        proof {
            use_type_invariant(self);
            lemma_store_len(self.auths@);
        }
        self.auths.len()
    }

    /// The registry domains that have a credential, each once.
    pub fn domains(&self) -> (names: Vec<String>)
        ensures
            names@.len() == self@.dom().len(),
            forall|i: int| 0 <= i < names@.len() ==> self@.contains_key(#[trigger] names@[i]@),
            forall|d: Seq<char>|
                self@.contains_key(d) ==> exists|i: int|
                    0 <= i < names@.len() && #[trigger] names@[i]@ == d,
    {
        proof {
            use_type_invariant(self);
            lemma_store_len(self.auths@);
        }
        let mut names: Vec<String> = Vec::new();
        let mut i: usize = 0;
        while i < self.auths.len()
            invariant
                i <= self.auths.len(),
                names@.len() == i,
                forall|j: int| 0 <= j < i ==> (#[trigger] names@[j])@ == self.auths@[j].0@,
            decreases self.auths.len() - i,
        {
            names.push(self.auths[i].0.clone());
            i = i + 1;
        }
        assert forall|j: int| 0 <= j < names@.len() implies self@.contains_key(
            #[trigger] names@[j]@,
        ) by {
            assert(holds_at(self.auths@, j, names@[j]@));
        }
        assert forall|d: Seq<char>| self@.contains_key(d) implies exists|i: int|
            0 <= i < names@.len() && #[trigger] names@[i]@ == d by {
            let k = choose|k: int| holds_at(self.auths@, k, d);
            assert(names@[k]@ == d);
        }
        names
    }

    /// Decodes the entries of a registry login file.
    pub fn try_from(raw: RawDockerConfig) -> (res: Result<DockerConfig, CredentialDecodeError>)
        ensures
            match res {
                Ok(store) => decoded_store(raw@) == Ok::<
                    Map<Seq<char>, Credential>,
                    CredentialDecodeError,
                >(store@),
                Err(e) => decoded_store(raw@) == Err::<
                    Map<Seq<char>, Credential>,
                    CredentialDecodeError,
                >(e),
            },
    {
        let mut store = DockerConfig::new();
        let ghost all = raw@;
        let entries = raw.auths;
        let mut i: usize = 0;
        while i < entries.len()
            invariant
                i <= entries.len(),
                all == raw@,
                all.len() == entries.len(),
                forall|j: int| 0 <= j < all.len() ==> all[j] == (entries@[j].0@, entries@[j].1.auth@),
                decoded_store(all.take(i as int)) == Ok::<
                    Map<Seq<char>, Credential>,
                    CredentialDecodeError,
                >(store@),
            decreases entries.len() - i,
        {
            proof {
                assert(all.take(i + 1).drop_last() =~= all.take(i as int));
            }
            let domain = entries[i].0.clone();
            let token = RawDockerAuth { auth: entries[i].1.auth.clone() };
            match DockerAuth::try_from(token) {
                Ok(auth) => {
                    proof {
                        assert(all.take(i + 1).last() == all[i as int]);
                    }
                    store.insert(domain, auth);
                },
                Err(e) => {
                    proof {
                        assert(all.take(i + 1).last() == all[i as int]);
                        lemma_decoded_store_fails(all, i as int);
                    }
                    return Err(e);
                },
            }
            i = i + 1;
        }
        proof {
            assert(all.take(i as int) =~= all);
        }
        Ok(store)
    }
}

/// Once the entries up to one that does not decode are in error, so are
/// all of them, with the same error.
proof fn lemma_decoded_store_fails(entries: Seq<(Seq<char>, Seq<char>)>, i: int)
    requires
        0 <= i < entries.len(),
        decoded_store(entries.take(i + 1)) is Err,
    ensures
        decoded_store(entries) == decoded_store(entries.take(i + 1)),
    decreases entries.len(),
{
    if i + 1 == entries.len() {
        assert(entries.take(i + 1) =~= entries);
    } else {
        assert(entries.drop_last().take(i + 1) =~= entries.take(i + 1));
        lemma_decoded_store_fails(entries.drop_last(), i);
    }
}

/// The entries of a login file decode to a store exactly where every token
/// decodes to a credential. The store then holds the domains of the
/// entries, and no others.
pub proof fn lemma_decoded_store_holds_every_domain(entries: Seq<(Seq<char>, Seq<char>)>)
    ensures
        decoded_store(entries) is Ok <==> forall|i: int|
            0 <= i < entries.len() ==> credential_of_token(
                base64_decoded(#[trigger] entries[i].1),
            ) is Ok,
        decoded_store(entries) matches Ok(store) ==> forall|d: Seq<char>|
            store.contains_key(d) <==> exists|i: int|
                0 <= i < entries.len() && #[trigger] entries[i].0 == d,
    decreases entries.len(),
{
    if entries.len() > 0 {
        let rest = entries.drop_last();
        let last = entries.last();
        lemma_decoded_store_holds_every_domain(rest);
        assert forall|i: int| 0 <= i < rest.len() implies rest[i] == entries[i] by {}
        if decoded_store(entries) is Ok {
            assert forall|i: int| 0 <= i < entries.len() implies credential_of_token(
                base64_decoded(#[trigger] entries[i].1),
            ) is Ok by {
                if i < rest.len() {
                    assert(rest[i] == entries[i]);
                }
            }
            let store = decoded_store(entries)->Ok_0;
            let before = decoded_store(rest)->Ok_0;
            assert forall|d: Seq<char>| store.contains_key(d) <==> exists|i: int|
                0 <= i < entries.len() && #[trigger] entries[i].0 == d by {
                if store.contains_key(d) {
                    if d == last.0 {
                        assert(entries[entries.len() - 1].0 == d);
                    } else {
                        assert(before.contains_key(d));
                        let i = choose|i: int| 0 <= i < rest.len() && #[trigger] rest[i].0 == d;
                        assert(entries[i].0 == d);
                    }
                }
                if exists|i: int| 0 <= i < entries.len() && #[trigger] entries[i].0 == d {
                    let i = choose|i: int| 0 <= i < entries.len() && #[trigger] entries[i].0 == d;
                    if i < rest.len() {
                        assert(rest[i].0 == d);
                    }
                }
            }
        } else if forall|i: int|
            0 <= i < entries.len() ==> credential_of_token(
                base64_decoded(#[trigger] entries[i].1),
            ) is Ok {
            assert forall|i: int| 0 <= i < rest.len() implies credential_of_token(
                base64_decoded(#[trigger] rest[i].1),
            ) is Ok by {
                assert(rest[i] == entries[i]);
            }
            assert(credential_of_token(base64_decoded(entries[entries.len() - 1].1)) is Ok);
        }
    }
}

/// The entries that the members under `auths` stand for: each member gives
/// its name as the registry domain and the string under `auth` as the
/// token. A member without such a string leaves no entries at all.
pub open spec fn login_entries(members: Seq<(Seq<char>, Seq<char>)>) -> Option<
    Seq<(Seq<char>, Seq<char>)>,
>
    decreases members.len(),
{
    if members.len() == 0 {
        Some(Seq::empty())
    } else {
        match login_entries(members.drop_last()) {
            Some(entries) => match json_text_member(members.last().1, "auth"@) {
                Some(token) => Some(entries.push((members.last().0, token))),
                None => None,
            },
            None => None,
        }
    }
}

/// The store that a registry login file stands for:
/// `{"auths": {"<domain>": {"auth": "<token>"}}}`, with any number of
/// domains.
pub open spec fn login_file(text: Seq<char>) -> Result<Map<Seq<char>, Credential>, LoginFileError> {
    match json_object_members(text, "auths"@) {
        Some(members) => match login_entries(members) {
            Some(entries) => match decoded_store(entries) {
                Ok(store) => Ok(store),
                Err(e) => Err(LoginFileError::Token(e)),
            },
            None => Err(LoginFileError::NoToken),
        },
        None => Err(LoginFileError::NoAuths),
    }
}

/// Once the members up to one without a token give no entries, all of them
/// give none.
proof fn lemma_login_entries_fail(members: Seq<(Seq<char>, Seq<char>)>, i: int)
    requires
        0 <= i < members.len(),
        login_entries(members.take(i + 1)) is None,
    ensures
        login_entries(members) is None,
    decreases members.len(),
{
    if i + 1 == members.len() {
        assert(members.take(i + 1) =~= members);
    } else {
        assert(members.drop_last().take(i + 1) =~= members.take(i + 1));
        lemma_login_entries_fail(members.drop_last(), i);
    }
}

/// Reads the entries of a registry login file from the members of its
/// `auths` object, each given as its name and the JSON text of its value.
pub fn read_entries(members: &Vec<(String, String)>) -> (res: Option<RawDockerConfig>)
    ensures
        res is Some <==> login_entries(text_pairs(members@)) is Some,
        res matches Some(raw) ==> login_entries(text_pairs(members@)) == Some(raw@),
{
    let ghost all = text_pairs(members@);
    let mut entries: Vec<(String, RawDockerAuth)> = Vec::new();
    let mut i: usize = 0;
    while i < members.len()
        invariant
            i <= members.len(),
            all == text_pairs(members@),
            login_entries(all.take(i as int)) == Some(
                Seq::new(entries@.len(), |k: int| (entries@[k].0@, entries@[k].1.auth@)),
            ),
        decreases members.len() - i,
    {
        proof {
            assert(all.take(i + 1).drop_last() =~= all.take(i as int));
            assert(all.take(i + 1).last() == all[i as int]);
        }
        let ghost before = Seq::new(entries@.len(), |k: int| (entries@[k].0@, entries@[k].1.auth@));
        match json_member(members[i].1.as_str(), "auth") {
            Some(token) => {
                entries.push((members[i].0.clone(), RawDockerAuth { auth: token }));
                assert(Seq::new(entries@.len(), |k: int| (entries@[k].0@, entries@[k].1.auth@))
                    =~= before.push((all[i as int].0, token@)));
            },
            None => {
                proof {
                    lemma_login_entries_fail(all, i as int);
                }
                return None;
            },
        }
        i = i + 1;
    }
    proof {
        assert(all.take(i as int) =~= all);
    }
    Some(RawDockerConfig { auths: entries })
}

/// Reads a registry login file: a JSON document of the shape
/// `{"auths": {"<domain>": {"auth": "<base64 of user:password>"}}}`.
pub fn read_auth(text: &str) -> (res: Result<DockerConfig, LoginFileError>)
    ensures
        match res {
            Ok(store) => login_file(text@) == Ok::<Map<Seq<char>, Credential>, LoginFileError>(
                store@,
            ),
            Err(e) => login_file(text@) == Err::<Map<Seq<char>, Credential>, LoginFileError>(e),
        },
{
    let members = match json_members(text, "auths") {
        Some(members) => members,
        None => {
            return Err(LoginFileError::NoAuths);
        },
    };
    let raw = match read_entries(&members) {
        Some(raw) => raw,
        None => {
            return Err(LoginFileError::NoToken);
        },
    };
    match DockerConfig::try_from(raw) {
        Ok(store) => Ok(store),
        Err(e) => Err(LoginFileError::Token(e)),
    }
}

/// Looks up the credential for the registry of `image`. That the store has
/// none is no error: public images need none.
pub fn resolve<'a>(store: &'a DockerConfig, image: &Image) -> (r: Option<&'a DockerAuth>)
    ensures
        r is Some <==> resolved(store@, image@) is Some,
        r matches Some(auth) ==> resolved(store@, image@) == Some(auth@),
{
    store.get(image.domain.as_str())
}

/// The lookup goes by the registry domain alone: two references to one
/// registry resolve alike, whatever their names, tags and digests.
pub proof fn lemma_resolve_by_domain(
    store: Map<Seq<char>, Credential>,
    a: ImageView,
    b: ImageView,
)
    requires
        a.domain == b.domain,
    ensures
        resolved(store, a) == resolved(store, b),
{
}

/// A domain that the store lacks resolves to nothing, and a domain that it
/// holds to exactly what was stored for it.
pub proof fn lemma_resolve_exact(
    store: Map<Seq<char>, Credential>,
    image: ImageView,
    credential: Credential,
)
    ensures
        !store.contains_key(image.domain) ==> resolved(store, image) is None,
        resolved(store.insert(image.domain, credential), image) == Some(credential),
{
}

} // verus!
