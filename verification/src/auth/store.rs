//! The servers that the runner trusts, and the requests that they sign.
use vstd::prelude::*;

use crate::artifacts::store::ArtifactStore;
use crate::auth::error::{AuthError, AuthErrorView, AuthRejection, AuthRejectionView};
use crate::auth::signature;
use crate::config;
use crate::config::{AuthConfig, AuthServerConfig, JobsConfig};
use crate::digest;
use crate::names;
use crate::names::NameMap;
use crate::protocol;
use crate::protocol::HeaderText;
use crate::text;
use crate::time;
use crate::time::UtcInstant;

verus! {

/// How far, in seconds, a request's timestamp may be from the clock.
pub const SIGNATURE_TOLERANCE_SECONDS: i64 = 300;

/// How long, in seconds, a nonce is remembered.
pub const NONCE_RETENTION_SECONDS: i64 = 600;

/// A server's key, and what the server may do.
#[derive(Debug)]
pub struct PublicKeyRecord {
    pub name: String,
    pub public_key: Vec<u8>,
    pub permissions: NameMap<()>,
}

/// The mathematical counterpart of `PublicKeyRecord`.
pub struct RecordView {
    pub name: Seq<char>,
    pub public_key: Seq<u8>,
    pub permissions: Seq<(Seq<char>, ())>,
}

impl View for PublicKeyRecord {
    type V = RecordView;

    open spec fn view(&self) -> RecordView {
        RecordView {
            name: self.name@,
            public_key: self.public_key@,
            permissions: self.permissions@,
        }
    }
}

/// The server behind a verified request.
#[derive(Debug, Clone)]
pub struct AuthContext {
    pub key_id: String,
    pub server_name: String,
    pub permissions: NameMap<()>,
}

/// The mathematical counterpart of `AuthContext`.
pub struct ContextView {
    pub key_id: Seq<char>,
    pub server_name: Seq<char>,
    pub permissions: Seq<(Seq<char>, ())>,
}

impl View for AuthContext {
    type V = ContextView;

    open spec fn view(&self) -> ContextView {
        ContextView {
            key_id: self.key_id@,
            server_name: self.server_name@,
            permissions: self.permissions@,
        }
    }
}

/// The headers that a signed request carries.
#[derive(Debug)]
pub struct SignedHeaders {
    pub key_id: HeaderText,
    pub timestamp: HeaderText,
    pub nonce: HeaderText,
    pub content_sha256: HeaderText,
    pub signature: HeaderText,
}

/// The text of a header that has to be there.
pub open spec fn required(header: HeaderText) -> Result<Seq<char>, AuthRejectionView> {
    match header {
        HeaderText::Missing => Err(AuthRejectionView::MissingAuthorization),
        HeaderText::NotText(_) => Err(AuthRejectionView::InvalidAuthorizationHeader),
        HeaderText::Text(t) => Ok(t@),
    }
}

pub fn required_header(header: &HeaderText) -> (r: Result<&str, AuthRejection>)
    ensures
        match r {
            Ok(t) => required(*header) == Ok::<_, AuthRejectionView>(t@),
            Err(e) => required(*header) == Err::<Seq<char>, _>(e@),
        },
{
    match header {
        HeaderText::Missing => Err(AuthRejection::MissingAuthorization),
        HeaderText::NotText(_) => Err(AuthRejection::InvalidAuthorizationHeader),
        HeaderText::Text(t) => Ok(t.as_str()),
    }
}

/// The distance between two instants in whole seconds, rounded down.
pub open spec fn distance_seconds(a: UtcInstant, b: UtcInstant) -> int {
    let seconds = time::whole_seconds(time::nanoseconds_between(a, b));
    if seconds >= 0 {
        seconds
    } else {
        -seconds
    }
}

/// Whether a parsed timestamp is close enough to `now`.
pub open spec fn timely(timestamp: Result<(i64, u32), Seq<char>>, now: UtcInstant) -> bool {
    match timestamp {
        Ok(at) => distance_seconds(UtcInstant { seconds: at.0, nanos: at.1 }, now)
            <= SIGNATURE_TOLERANCE_SECONDS,
        Err(_) => false,
    }
}

/// Whether an instant is close enough to `now`.
pub fn is_timely(at: &UtcInstant, now: &UtcInstant) -> (r: bool)
    requires
        at.in_calendar(),
        now.in_calendar(),
    ensures
        r == (distance_seconds(*at, *now) <= SIGNATURE_TOLERANCE_SECONDS),
{
    let age = time::seconds_between(at, now);
    -SIGNATURE_TOLERANCE_SECONDS <= age && age <= SIGNATURE_TOLERANCE_SECONDS
}

/// Holds a request's timestamp against `now`.
pub fn verify_timestamp_at(value: &str, now: &UtcInstant) -> (r: Result<(), AuthRejection>)
    requires
        now.in_calendar(),
    ensures
        match r {
            Ok(()) => timely(time::parsed_rfc3339(value@), *now),
            Err(e) => !timely(time::parsed_rfc3339(value@), *now) && e@
                == AuthRejectionView::InvalidTimestamp,
        },
{
    match time::parse_rfc3339(value) {
        Ok(at) => {
            if !is_timely(&at, now) {
                return Err(AuthRejection::InvalidTimestamp);
            }
            Ok(())
        },
        Err(_) => Err(AuthRejection::InvalidTimestamp),
    }
}

/// A nonce: more than white space, and at most 128 bytes.
pub open spec fn is_nonce(nonce: Seq<char>) -> bool {
    text::trimmed(nonce).len() > 0 && vstd::utf8::encode_utf8(nonce).len() <= 128
}

/// The name under which a nonce is remembered.
pub open spec fn replay_key(key_id: Seq<char>, nonce: Seq<char>) -> Seq<char> {
    key_id + ":"@ + nonce
}

/// The earliest instant that is remembered at `now`.
pub open spec fn cutoff(now: UtcInstant) -> UtcInstant {
    UtcInstant { seconds: (now.seconds - NONCE_RETENTION_SECONDS) as i64, nanos: now.nanos }
}

/// A nonce that is still remembered at `now`.
pub open spec fn remembered(now: UtcInstant) -> spec_fn(UtcInstant) -> bool {
    |seen_at: UtcInstant| cutoff(now).not_after(seen_at)
}

/// The nonces after a request at `now`, and whether the request may go on: a
/// nonce that is still remembered is a replay.
pub open spec fn nonce_checked(
    seen: Seq<(Seq<char>, UtcInstant)>,
    key_id: Seq<char>,
    nonce: Seq<char>,
    now: UtcInstant,
) -> (Seq<(Seq<char>, UtcInstant)>, Result<(), AuthRejectionView>) {
    if !is_nonce(nonce) {
        (seen, Err(AuthRejectionView::InvalidNonce))
    } else {
        let remaining = names::kept(seen, remembered(now));
        let key = replay_key(key_id, nonce);
        if names::has_name(remaining, key) {
            (remaining, Err(AuthRejectionView::Replay))
        } else {
            (names::inserted(remaining, key, now), Ok(()))
        }
    }
}

/// The key of a configured server: 32 bytes in Base64 that make a key.
pub open spec fn server_key(decoded: Option<Seq<u8>>) -> Option<Seq<u8>> {
    match decoded {
        Some(bytes) => if bytes.len() == 32 && signature::is_public_key(bytes) {
            Some(bytes)
        } else {
            None
        },
        None => None,
    }
}

/// Names as a set, in name order.
pub open spec fn name_set(list: Seq<String>) -> Seq<(Seq<char>, ())>
    decreases list.len(),
{
    if list.len() == 0 {
        Seq::empty()
    } else {
        names::inserted(name_set(list.drop_last()), list.last()@, ())
    }
}

/// The record of a configured server.
pub open spec fn server_record(server: AuthServerConfig) -> Option<RecordView> {
    match server_key(signature::decoded_base64(text::trimmed(server.public_key@))) {
        Some(public_key) => Some(
            RecordView {
                name: server.name@,
                public_key,
                permissions: name_set(server.permissions@),
            },
        ),
        None => None,
    }
}

/// The records of the first `n` servers; a server whose key cannot be used ends
/// the loading, and a later record replaces an earlier one under the same
/// identifier.
pub open spec fn loaded_servers(servers: Seq<AuthServerConfig>, n: nat) -> Result<
    Seq<(Seq<char>, RecordView)>,
    AuthErrorView,
>
    decreases n,
{
    if n == 0 {
        Ok(Seq::empty())
    } else {
        match loaded_servers(servers, (n - 1) as nat) {
            Err(e) => Err(e),
            Ok(before) => match server_record(servers[n - 1]) {
                None => Err(AuthErrorView::InvalidPublicKey(servers[n - 1].key_id@)),
                Some(record) => Ok(names::inserted(before, servers[n - 1].key_id@, record)),
            },
        }
    }
}

/// The records that a configuration gives.
pub open spec fn loaded_config(config: AuthConfig) -> Result<
    Seq<(Seq<char>, RecordView)>,
    AuthErrorView,
> {
    if config.mode@ != "signed"@ {
        Err(AuthErrorView::UnsupportedMode(config.mode@))
    } else if config.servers@.len() == 0 {
        Err(AuthErrorView::NoTrustedServers)
    } else {
        loaded_servers(config.servers@, config.servers@.len())
    }
}

proof fn loading_stops_at_failure(servers: Seq<AuthServerConfig>, k: nat, n: nat)
    requires
        k <= n,
        loaded_servers(servers, k) is Err,
    ensures
        loaded_servers(servers, n) == loaded_servers(servers, k),
    decreases n,
{
    if k < n {
        loading_stops_at_failure(servers, k, (n - 1) as nat);
    }
}

fn collect_names(list: &Vec<String>) -> (r: NameMap<()>)
    ensures
        r@ == name_set(list@),
{
    let mut out: NameMap<()> = NameMap::new();
    assert(list@.take(0) =~= Seq::empty());
    let mut i: usize = 0;
    while i < list.len()
        invariant
            i <= list@.len(),
            out@ == name_set(list@.take(i as int)),
        decreases list@.len() - i,
    {
        assert(list@.take(i + 1).drop_last() =~= list@.take(i as int));
        out.insert(list[i].clone(), ());
        i += 1;
    }
    assert(list@.take(i as int) =~= list@);
    out
}

/// The key that the decoded part of a server's configuration gives.
pub fn key_from_decoded(decoded: Option<Vec<u8>>) -> (r: Option<Vec<u8>>)
    ensures
        signature::bytes_view(r) == server_key(signature::bytes_view(decoded)),
{
    match decoded {
        Some(bytes) => {
            if bytes.len() != 32 || !signature::check_public_key(bytes.as_slice()) {
                return None;
            }
            Some(bytes)
        },
        None => None,
    }
}

fn load_server(server: &AuthServerConfig) -> (r: Option<PublicKeyRecord>)
    ensures
        match r {
            Some(record) => server_record(*server) == Some(record@),
            None => server_record(*server) is None,
        },
{
    let encoded = text::trim(server.public_key.as_str());
    match key_from_decoded(signature::decode_base64(encoded.as_str())) {
        Some(public_key) => Some(
            PublicKeyRecord {
                name: server.name.clone(),
                public_key,
                permissions: collect_names(&server.permissions),
            },
        ),
        None => None,
    }
}

/// A record by its mathematical counterpart.
pub open spec fn record_model() -> spec_fn(PublicKeyRecord) -> RecordView {
    |record: PublicKeyRecord| record@
}

/// The mathematical counterpart of `AuthStore`.
pub struct AuthStoreView {
    pub keys: Seq<(Seq<char>, RecordView)>,
    pub seen: Seq<(Seq<char>, UtcInstant)>,
}

impl AuthStoreView {
    /// Keys and nonces are in name order, each name once.
    pub open spec fn valid(self) -> bool {
        names::names_sorted(self.keys) && names::names_sorted(self.seen)
    }
}

/// What a signed request says, once all its headers are there.
pub struct SignedRequest {
    pub key_id: Seq<char>,
    pub timestamp: Seq<char>,
    pub nonce: Seq<char>,
    pub content_sha256: Seq<char>,
    pub signature: Seq<char>,
}

/// What a request's headers say; the first that is missing or no text counts.
pub open spec fn signed_request(headers: SignedHeaders) -> Result<SignedRequest, AuthRejectionView> {
    match (
        required(headers.key_id),
        required(headers.timestamp),
        required(headers.nonce),
        required(headers.content_sha256),
        required(headers.signature),
    ) {
        (Err(e), _, _, _, _) => Err(e),
        (_, Err(e), _, _, _) => Err(e),
        (_, _, Err(e), _, _) => Err(e),
        (_, _, _, Err(e), _) => Err(e),
        (_, _, _, _, Err(e)) => Err(e),
        (Ok(key_id), Ok(timestamp), Ok(nonce), Ok(content_sha256), Ok(signature)) => Ok(
            SignedRequest { key_id, timestamp, nonce, content_sha256, signature },
        ),
    }
}

/// Whether the signature of a request is the one of the record's key over the
/// request's canonical form.
pub open spec fn signature_checked(
    record: RecordView,
    method: Seq<char>,
    path_and_query: Seq<char>,
    request: SignedRequest,
    body: Seq<u8>,
) -> Result<(), AuthRejectionView> {
    if !text::equal_ignoring_case(request.content_sha256, digest::sha256_text(body)) {
        Err(AuthRejectionView::ContentShaMismatch)
    } else {
        match signature::header_signature(request.signature) {
            Err(e) => Err(e),
            Ok(bytes) => if signature::signature_holds(
                record.public_key,
                vstd::utf8::encode_utf8(
                    protocol::canonical_request(
                        method,
                        path_and_query,
                        request.content_sha256,
                        request.timestamp,
                        request.nonce,
                    ),
                ),
                bytes,
            ) {
                Ok(())
            } else {
                Err(AuthRejectionView::InvalidSignature)
            },
        }
    }
}

impl AuthStoreView {
    /// What becomes of a request at `now`. Its headers, its key, its timestamp,
    /// its nonce, its body's checksum and its signature are looked at in this
    /// order; the nonce is remembered even where what follows fails.
    pub open spec fn verified(
        self,
        method: Seq<char>,
        path_and_query: Seq<char>,
        headers: SignedHeaders,
        body: Seq<u8>,
        now: UtcInstant,
    ) -> (Self, Result<ContextView, AuthRejectionView>) {
        match signed_request(headers) {
            Err(e) => (self, Err(e)),
            Ok(request) => match names::lookup(self.keys, request.key_id) {
                None => (self, Err(AuthRejectionView::InvalidKeyId)),
                Some(record) => if !timely(time::parsed_rfc3339(request.timestamp), now) {
                    (self, Err(AuthRejectionView::InvalidTimestamp))
                } else {
                    let (seen, fresh) = nonce_checked(
                        self.seen,
                        request.key_id,
                        request.nonce,
                        now,
                    );
                    let after = AuthStoreView { seen, ..self };
                    match fresh {
                        Err(e) => (after, Err(e)),
                        Ok(()) => match signature_checked(
                            record,
                            method,
                            path_and_query,
                            request,
                            body,
                        ) {
                            Err(e) => (after, Err(e)),
                            Ok(()) => (
                                after,
                                Ok(
                                    ContextView {
                                        key_id: request.key_id,
                                        server_name: record.name,
                                        permissions: record.permissions,
                                    },
                                ),
                            ),
                        },
                    }
                },
            },
        }
    }
}

/// The trusted servers, and the nonces of their latest requests.
#[derive(Debug)]
pub struct AuthStore {
    keys: NameMap<PublicKeyRecord>,
    seen_nonces: NameMap<UtcInstant>,
}

impl View for AuthStore {
    type V = AuthStoreView;

    closed spec fn view(&self) -> AuthStoreView {
        AuthStoreView {
            keys: names::with_values(self.keys@, record_model()),
            seen: self.seen_nonces@,
        }
    }
}

spec fn usable_keys(keys: Seq<(Seq<char>, PublicKeyRecord)>) -> bool {
    forall|i: int|
        0 <= i < keys.len() ==> (#[trigger] keys[i]).1.public_key@.len() == 32
            && signature::is_public_key(keys[i].1.public_key@)
}

proof fn inserting_keeps_usable(
    keys: Seq<(Seq<char>, PublicKeyRecord)>,
    key_id: Seq<char>,
    record: PublicKeyRecord,
)
    requires
        names::names_sorted(keys),
        usable_keys(keys),
        record.public_key@.len() == 32,
        signature::is_public_key(record.public_key@),
    ensures
        usable_keys(names::inserted(keys, key_id, record)),
{
    names::insert_position_splits(keys, key_id);
    let p = names::insert_position(keys, key_id) as int;
    let r = names::inserted(keys, key_id, record);
    assert forall|i: int| 0 <= i < r.len() implies (#[trigger] r[i]).1.public_key@.len() == 32
        && signature::is_public_key(r[i].1.public_key@) by {
        if i == p {
        } else if i < p || (p < keys.len() && keys[p].0 == key_id) {
            assert(r[i] == keys[i]);
        } else {
            assert(r[i] == keys[i - 1]);
        }
    }
}

impl AuthStore {
    #[verifier::type_invariant]
    spec fn holds_usable_keys(self) -> bool {
        usable_keys(self.keys@) && self@.valid()
    }

    pub fn load_from_config(config: &AuthConfig) -> (r: Result<Self, AuthError>)
        ensures
            match r {
                Ok(store) => loaded_config(*config) == Ok::<_, AuthErrorView>(store@.keys)
                    && store@.seen.len() == 0 && store@.valid(),
                Err(e) => loaded_config(*config) == Err::<Seq<(Seq<char>, RecordView)>, _>(e@),
            },
    {
        if !text::same(config.mode.as_str(), "signed") {
            return Err(AuthError::UnsupportedMode(config.mode.clone()));
        }
        if config.servers.len() == 0 {
            return Err(AuthError::NoTrustedServers);
        }
        let mut keys: NameMap<PublicKeyRecord> = NameMap::new();
        assert(names::with_values(keys@, record_model()) =~= Seq::empty());
        let mut i: usize = 0;
        while i < config.servers.len()
            invariant
                i <= config.servers@.len(),
                config.mode@ == "signed"@,
                config.servers@.len() > 0,
                usable_keys(keys@),
                names::names_sorted(keys@),
                loaded_servers(config.servers@, i as nat) == Ok::<_, AuthErrorView>(
                    names::with_values(keys@, record_model()),
                ),
            decreases config.servers@.len() - i,
        {
            let server = &config.servers[i];
            match load_server(server) {
                None => {
                    proof {
                        loading_stops_at_failure(
                            config.servers@,
                            (i + 1) as nat,
                            config.servers@.len(),
                        );
                    }
                    return Err(AuthError::InvalidPublicKey(server.key_id.clone()));
                },
                Some(record) => {
                    let key_id = server.key_id.clone();
                    let ghost before = keys@;
                    keys.insert(key_id, record);
                    proof {
                        names::with_values_inserted(before, record_model(), key_id@, record);
                        inserting_keeps_usable(before, key_id@, record);
                    }
                },
            }
            i += 1;
        }
        proof {
            names::with_values_lookup(keys@, record_model(), Seq::empty());
        }
        Ok(AuthStore { keys, seen_nonces: NameMap::new() })
    }

    /// Holds a request's nonce against those seen before, at `now`.
    fn verify_nonce_at(&mut self, key_id: &str, nonce: &str, now: &UtcInstant) -> (r: Result<
        (),
        AuthRejection,
    >)
        requires
            now.clock_reading(),
        ensures
            ({
                let expected = nonce_checked(old(self)@.seen, key_id@, nonce@, *now);
                &&& final(self)@ == (AuthStoreView { seen: expected.0, ..old(self)@ })
                &&& final(self)@.valid()
                &&& match r {
                    Ok(()) => expected.1 is Ok,
                    Err(e) => expected.1 == Err::<(), _>(e@),
                }
            }),
    {
        proof {
            use_type_invariant(&*self);
        }
        let trimmed = text::trim(nonce);
        if trimmed.as_str().is_empty() || nonce.as_bytes().len() > 128 {
            return Err(AuthRejection::InvalidNonce);
        }
        let oldest = UtcInstant {
            seconds: now.seconds - NONCE_RETENTION_SECONDS,
            nanos: now.nanos,
        };
        let mut key = key_id.to_owned();
        key.append(":");
        key.append(nonce);
        let mut seen: NameMap<UtcInstant> = NameMap::new();
        std::mem::swap(&mut seen, &mut self.seen_nonces);
        let test = |seen_at: &UtcInstant| -> (keep: bool)
            ensures
                keep == remembered(*now)(*seen_at),
            { oldest.at_or_before(seen_at) };
        seen.retain(test, Ghost(remembered(*now)));
        if seen.contains_name(key.as_str()) {
            self.seen_nonces = seen;
            return Err(AuthRejection::Replay);
        }
        seen.insert(key, *now);
        self.seen_nonces = seen;
        Ok(())
    }

    fn verify_signature(
        record: &PublicKeyRecord,
        method: &str,
        path_and_query: &str,
        content_sha256: &str,
        timestamp: &str,
        nonce: &str,
        signature_header: &str,
        body: &[u8],
    ) -> (r: Result<(), AuthRejection>)
        requires
            record.public_key@.len() == 32,
            signature::is_public_key(record.public_key@),
        ensures
            ({
                let request = SignedRequest {
                    key_id: Seq::empty(),
                    timestamp: timestamp@,
                    nonce: nonce@,
                    content_sha256: content_sha256@,
                    signature: signature_header@,
                };
                let expected = signature_checked(
                    record@,
                    method@,
                    path_and_query@,
                    request,
                    body@,
                );
                match r {
                    Ok(()) => expected is Ok,
                    Err(e) => expected == Err::<(), _>(e@),
                }
            }),
    {
        let actual_sha256 = digest::sha256_hex(body);
        if !text::same_ignoring_case(content_sha256, actual_sha256.as_str()) {
            return Err(AuthRejection::ContentShaMismatch);
        }
        let bytes = match signature::parse_signature(signature_header) {
            Ok(bytes) => bytes,
            Err(e) => {
                return Err(e);
            },
        };
        let canonical = protocol::canonical_signed_request(
            method,
            path_and_query,
            content_sha256,
            timestamp,
            nonce,
        );
        if !signature::verify_signature(
            record.public_key.as_slice(),
            canonical.as_str().as_bytes(),
            bytes.as_slice(),
        ) {
            return Err(AuthRejection::InvalidSignature);
        }
        Ok(())
    }

    /// Verifies a request at `now`.
    pub fn verify_request_at(
        &mut self,
        method: &str,
        path_and_query: &str,
        headers: &SignedHeaders,
        body: &[u8],
        now: &UtcInstant,
    ) -> (r: Result<AuthContext, AuthRejection>)
        requires
            now.clock_reading(),
        ensures
            old(self)@.valid(),
            final(self)@.valid(),
            ({
                let expected = old(self)@.verified(method@, path_and_query@, *headers, body@, *now);
                &&& final(self)@ == expected.0
                &&& match r {
                    Ok(context) => expected.1 == Ok::<_, AuthRejectionView>(context@),
                    Err(e) => expected.1 == Err::<ContextView, _>(e@),
                }
            }),
    {
        proof {
            use_type_invariant(&*self);
        }
        let key_id = match required_header(&headers.key_id) {
            Ok(t) => t,
            Err(e) => {
                return Err(e);
            },
        };
        let timestamp = match required_header(&headers.timestamp) {
            Ok(t) => t,
            Err(e) => {
                return Err(e);
            },
        };
        let nonce = match required_header(&headers.nonce) {
            Ok(t) => t,
            Err(e) => {
                return Err(e);
            },
        };
        let content_sha256 = match required_header(&headers.content_sha256) {
            Ok(t) => t,
            Err(e) => {
                return Err(e);
            },
        };
        let signature = match required_header(&headers.signature) {
            Ok(t) => t,
            Err(e) => {
                return Err(e);
            },
        };
        let known = self.keys.contains_name(key_id);
        proof {
            names::with_values_lookup(self.keys@, record_model(), key_id@);
        }
        if !known {
            return Err(AuthRejection::InvalidKeyId);
        }
        if let Err(e) = verify_timestamp_at(timestamp, now) {
            return Err(e);
        }
        if let Err(e) = self.verify_nonce_at(key_id, nonce, now) {
            return Err(e);
        }
        proof {
            use_type_invariant(&*self);
        }
        let found = self.keys.get(key_id);
        proof {
            names::with_values_lookup(self.keys@, record_model(), key_id@);
        }
        match found {
            None => Err(AuthRejection::InvalidKeyId),
            Some(record) => {
                proof {
                    let p = names::position_of(self.keys@, key_id@);
                    assert(names::has_name(self.keys@, key_id@));
                    assert(self.keys@[p].1.public_key@.len() == 32);
                }
                if let Err(e) = AuthStore::verify_signature(
                    record,
                    method,
                    path_and_query,
                    content_sha256,
                    timestamp,
                    nonce,
                    signature,
                    body,
                ) {
                    return Err(e);
                }
                let permissions = record.permissions.clone();
                assert(permissions@ =~= record.permissions@);
                Ok(
                    AuthContext {
                        key_id: key_id.to_owned(),
                        server_name: record.name.clone(),
                        permissions,
                    },
                )
            },
        }
    }

    /// Verifies a request now.
    pub fn verify_request(
        &mut self,
        method: &str,
        path_and_query: &str,
        headers: &SignedHeaders,
        body: &[u8],
    ) -> (r: Result<AuthContext, AuthRejection>)
        ensures
            old(self)@.valid(),
            final(self)@.valid(),
            exists|now: UtcInstant|
                now.clock_reading() && ({
                    let expected = #[trigger] old(self)@.verified(
                        method@,
                        path_and_query@,
                        *headers,
                        body@,
                        now,
                    );
                    &&& final(self)@ == expected.0
                    &&& match r {
                        Ok(context) => expected.1 == Ok::<_, AuthRejectionView>(context@),
                        Err(e) => expected.1 == Err::<ContextView, _>(e@),
                    }
                }),
    {
        let now = time::utc_now();
        self.verify_request_at(method, path_and_query, headers, body, &now)
    }
}

/// The largest body, in bytes, that a signed request may have: what the larger
/// of a job request and an upload may have.
pub fn max_signed_request_bytes(jobs: &JobsConfig, artifacts: &ArtifactStore) -> (r: Result<
    usize,
    AuthRejection,
>)
    ensures
        match config::kibibytes(jobs.max_request_body_kb) {
            Some(bytes) => r == Ok::<usize, AuthRejection>(
                if bytes >= artifacts.max_size_bytes {
                    bytes
                } else {
                    artifacts.max_size_bytes
                },
            ),
            None => r matches Err(e) && e@ == AuthRejectionView::InvalidBodyLimit,
        },
{
    match jobs.max_request_body_bytes() {
        Some(bytes) => {
            let upload: usize = artifacts.max_upload_bytes();
            if bytes >= upload {
                Ok(bytes)
            } else {
                Ok(upload)
            }
        },
        None => Err(AuthRejection::InvalidBodyLimit),
    }
}

/// A nonce that was accepted is a replay for as long as it is remembered: a
/// request that uses it again within that time is rejected.
pub proof fn replay_is_rejected(
    seen: Seq<(Seq<char>, UtcInstant)>,
    key_id: Seq<char>,
    nonce: Seq<char>,
    now: UtcInstant,
    later: UtcInstant,
)
    requires
        names::names_sorted(seen),
        nonce_checked(seen, key_id, nonce, now).1 is Ok,
        cutoff(later).not_after(now),
    ensures
        nonce_checked(nonce_checked(seen, key_id, nonce, now).0, key_id, nonce, later).1 == Err::<
            (),
            _,
        >(AuthRejectionView::Replay),
{
    let remaining = names::kept(seen, remembered(now));
    let key = replay_key(key_id, nonce);
    names::kept_lookup(seen, remembered(now), key);
    names::inserted_sorted(remaining, key, now);
    names::inserted_lookup(remaining, key, now, key);
    names::kept_lookup(names::inserted(remaining, key, now), remembered(later), key);
}

/// A remembered nonce outlives other requests.
pub proof fn nonce_outlives_other_requests(
    seen: Seq<(Seq<char>, UtcInstant)>,
    key: Seq<char>,
    key_id: Seq<char>,
    nonce: Seq<char>,
    now: UtcInstant,
    seen_at: UtcInstant,
)
    requires
        names::names_sorted(seen),
        names::lookup(seen, key) == Some(seen_at),
        cutoff(now).not_after(seen_at),
    ensures
        names::names_sorted(nonce_checked(seen, key_id, nonce, now).0),
        names::lookup(nonce_checked(seen, key_id, nonce, now).0, key) == Some(seen_at),
{
    let remaining = names::kept(seen, remembered(now));
    let other = replay_key(key_id, nonce);
    names::kept_lookup(seen, remembered(now), key);
    names::inserted_sorted(remaining, other, now);
    names::inserted_lookup(remaining, other, now, key);
}

/// A request, and when it comes.
pub struct Attempt {
    pub method: Seq<char>,
    pub path_and_query: Seq<char>,
    pub headers: SignedHeaders,
    pub body: Seq<u8>,
    pub now: UtcInstant,
}

impl AuthStoreView {
    /// What becomes of an attempt.
    pub open spec fn tried(self, attempt: Attempt) -> (Self, Result<ContextView, AuthRejectionView>) {
        self.verified(
            attempt.method,
            attempt.path_and_query,
            attempt.headers,
            attempt.body,
            attempt.now,
        )
    }

    /// The store once all the attempts were made, one after the other.
    pub open spec fn after_attempts(self, attempts: Seq<Attempt>) -> Self
        decreases attempts.len(),
    {
        if attempts.len() == 0 {
            self
        } else {
            self.after_attempts(attempts.drop_last()).tried(attempts.last()).0
        }
    }
}

/// A nonce outlives any attempts that are made while it is remembered.
pub proof fn nonce_outlives_attempts(
    store: AuthStoreView,
    attempts: Seq<Attempt>,
    key: Seq<char>,
    seen_at: UtcInstant,
)
    requires
        names::names_sorted(store.seen),
        names::lookup(store.seen, key) == Some(seen_at),
        forall|i: int|
            0 <= i < attempts.len() ==> cutoff((#[trigger] attempts[i]).now).not_after(seen_at),
    ensures
        names::names_sorted(store.after_attempts(attempts).seen),
        names::lookup(store.after_attempts(attempts).seen, key) == Some(seen_at),
    decreases attempts.len(),
{
    if attempts.len() > 0 {
        let earlier = attempts.drop_last();
        assert forall|i: int| 0 <= i < earlier.len() implies cutoff(
            (#[trigger] earlier[i]).now,
        ).not_after(seen_at) by {
            assert(earlier[i] == attempts[i]);
        }
        nonce_outlives_attempts(store, earlier, key, seen_at);
        let before = store.after_attempts(earlier);
        let last = attempts.last();
        assert(last == attempts[attempts.len() - 1]);
        if let Ok(request) = signed_request(last.headers) {
            nonce_outlives_other_requests(
                before.seen,
                key,
                request.key_id,
                request.nonce,
                last.now,
                seen_at,
            );
        }
    }
}

/// Once a request was accepted, no request with the same key and nonce is
/// accepted while the nonce is remembered, whatever requests come between them.
pub proof fn accepted_request_is_not_accepted_again(
    store: AuthStoreView,
    accepted: Attempt,
    between: Seq<Attempt>,
    again: Attempt,
)
    requires
        names::names_sorted(store.seen),
        store.tried(accepted).1 is Ok,
        forall|i: int|
            0 <= i < between.len() ==> cutoff((#[trigger] between[i]).now).not_after(accepted.now),
        signed_request(again.headers) is Ok,
        signed_request(again.headers)->Ok_0.key_id == signed_request(accepted.headers)->Ok_0.key_id,
        signed_request(again.headers)->Ok_0.nonce == signed_request(accepted.headers)->Ok_0.nonce,
        cutoff(again.now).not_after(accepted.now),
    ensures
        store.tried(accepted).0.after_attempts(between).tried(again).1 is Err,
{
    let request = signed_request(accepted.headers)->Ok_0;
    let key = replay_key(request.key_id, request.nonce);
    let remaining = names::kept(store.seen, remembered(accepted.now));
    names::kept_lookup(store.seen, remembered(accepted.now), key);
    names::inserted_sorted(remaining, key, accepted.now);
    names::inserted_lookup(remaining, key, accepted.now, key);
    let first = store.tried(accepted).0;
    nonce_outlives_attempts(first, between, key, accepted.now);
    let later = first.after_attempts(between);
    names::kept_lookup(later.seen, remembered(again.now), key);
}

/// Nothing but the nonces changes when requests are verified.
pub proof fn verifying_keeps_keys(
    store: AuthStoreView,
    method: Seq<char>,
    path_and_query: Seq<char>,
    headers: SignedHeaders,
    body: Seq<u8>,
    now: UtcInstant,
)
    ensures
        store.verified(method, path_and_query, headers, body, now).0.keys == store.keys,
{
}

/// A request is accepted only with a known key whose signature over the
/// request's canonical form holds, and only close to its timestamp.
pub proof fn acceptance_needs_a_signature(
    store: AuthStoreView,
    method: Seq<char>,
    path_and_query: Seq<char>,
    headers: SignedHeaders,
    body: Seq<u8>,
    now: UtcInstant,
)
    requires
        store.verified(method, path_and_query, headers, body, now).1 is Ok,
    ensures
        ({
            let request = signed_request(headers)->Ok_0;
            let record = names::lookup(store.keys, request.key_id);
            &&& signed_request(headers) is Ok
            &&& record is Some
            &&& timely(time::parsed_rfc3339(request.timestamp), now)
            &&& text::equal_ignoring_case(request.content_sha256, digest::sha256_text(body))
            &&& signature::header_signature(request.signature) is Ok
            &&& signature::signature_holds(
                record->0.public_key,
                vstd::utf8::encode_utf8(
                    protocol::canonical_request(
                        method,
                        path_and_query,
                        request.content_sha256,
                        request.timestamp,
                        request.nonce,
                    ),
                ),
                signature::header_signature(request.signature)->Ok_0,
            )
        }),
{
}

} // verus!
