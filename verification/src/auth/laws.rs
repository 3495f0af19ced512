//! Whom the runner trusts, with what, and when.
use vstd::prelude::*;

use crate::auth::error::{AuthErrorView, AuthRejectionView};
use crate::auth::permission;
use crate::auth::permission::{
    ArtifactsRead, ArtifactsWrite, JobsRead, JobsRun, LogsRead, RequiredPermission,
};
use crate::auth::signature;
use crate::auth::store;
use crate::auth::store::{AuthContext, AuthStoreView, ContextView, RecordView, SignedHeaders};
use crate::config::{AuthConfig, AuthServerConfig};
use crate::digest;
use crate::names;
use crate::protocol::HeaderText;
use crate::text;
use crate::time;
use crate::time::UtcInstant;

verus! {

/// A configured list of names, taken as a set, holds exactly the names of the
/// list.
pub proof fn a_set_holds_what_was_listed(list: Seq<String>, q: Seq<char>)
    ensures
        names::names_sorted(store::name_set(list)),
        names::has_name(store::name_set(list), q) == exists|i: int|
            0 <= i < list.len() && (#[trigger] list[i])@ == q,
    decreases list.len(),
{
    if list.len() > 0 {
        let rest = list.drop_last();
        let last = list.len() - 1;
        a_set_holds_what_was_listed(rest, q);
        names::inserted_sorted(store::name_set(rest), list[last]@, ());
        names::inserted_lookup(store::name_set(rest), list[last]@, (), q);
        if exists|i: int| 0 <= i < rest.len() && (#[trigger] rest[i])@ == q {
            let i = choose|i: int| 0 <= i < rest.len() && (#[trigger] rest[i])@ == q;
            assert(list[i]@ == q);
        }
        if exists|i: int| 0 <= i < list.len() && (#[trigger] list[i])@ == q {
            let i = choose|i: int| 0 <= i < list.len() && (#[trigger] list[i])@ == q;
            if i < last {
                assert(rest[i]@ == q);
            }
        }
    }
}

/// The server's key is 32 bytes in Base64, with white space around it or not,
/// that make a key.
pub open spec fn has_key(server: AuthServerConfig) -> bool {
    signature::decoded_base64(text::trimmed(server.public_key@)) matches Some(bytes) && bytes.len()
        == 32 && signature::is_public_key(bytes)
}

/// The record says of the server what its configuration says.
pub open spec fn records(record: RecordView, server: AuthServerConfig) -> bool {
    &&& record.name == server.name@
    &&& signature::decoded_base64(text::trimmed(server.public_key@)) == Some(record.public_key)
    &&& forall|q: Seq<char>| #[trigger]
        names::has_name(record.permissions, q) == exists|i: int|
            0 <= i < server.permissions@.len() && (#[trigger] server.permissions@[i])@ == q
}

proof fn first_servers(servers: Seq<AuthServerConfig>, n: nat)
    requires
        n <= servers.len(),
        forall|k: int| 0 <= k < n ==> has_key(#[trigger] servers[k]),
    ensures
        store::loaded_servers(servers, n) is Ok,
        ({
            let keys = store::loaded_servers(servers, n)->Ok_0;
            &&& names::names_sorted(keys)
            &&& forall|q: Seq<char>|
                #![trigger names::lookup(keys, q)]
                #![trigger names::has_name(keys, q)]
                match names::lookup(keys, q) {
                    Some(record) => exists|k: int|
                        0 <= k < n && (#[trigger] servers[k]).key_id@ == q && records(
                            record,
                            servers[k],
                        ) && forall|l: int| k < l < n ==> (#[trigger] servers[l]).key_id@ != q,
                    None => forall|k: int| 0 <= k < n ==> (#[trigger] servers[k]).key_id@ != q,
                }
        }),
    decreases n,
{
    if n > 0 {
        let m = (n - 1) as nat;
        first_servers(servers, m);
        let before = store::loaded_servers(servers, m)->Ok_0;
        let server = servers[n - 1];
        assert(has_key(server));
        let record = store::server_record(server)->0;
        let keys = store::loaded_servers(servers, n)->Ok_0;
        assert(records(record, server)) by {
            assert forall|q: Seq<char>| #[trigger]
                names::has_name(record.permissions, q) == exists|i: int|
                    0 <= i < server.permissions@.len() && (#[trigger] server.permissions@[i])@
                        == q by {
                a_set_holds_what_was_listed(server.permissions@, q);
            }
        }
        names::inserted_sorted(before, server.key_id@, record);
        assert forall|q: Seq<char>|
            #![trigger names::lookup(keys, q)]
            #![trigger names::has_name(keys, q)]
            match names::lookup(keys, q) {
                Some(record) => exists|k: int|
                    0 <= k < n && (#[trigger] servers[k]).key_id@ == q && records(
                        record,
                        servers[k],
                    ) && forall|l: int| k < l < n ==> (#[trigger] servers[l]).key_id@ != q,
                None => forall|k: int| 0 <= k < n ==> (#[trigger] servers[k]).key_id@ != q,
            } by {
            names::inserted_lookup(before, server.key_id@, record, q);
            if q == server.key_id@ {
                assert(servers[n - 1].key_id@ == q);
            } else {
                assert(names::lookup(keys, q) == names::lookup(before, q));
                if let Some(found) = names::lookup(before, q) {
                    let k = choose|k: int|
                        0 <= k < m && (#[trigger] servers[k]).key_id@ == q && records(
                            found,
                            servers[k],
                        ) && forall|l: int| k < l < m ==> (#[trigger] servers[l]).key_id@ != q;
                    assert forall|l: int| k < l < n implies (#[trigger] servers[l]).key_id@ != q by {
                        if l == n - 1 {
                            assert(servers[l].key_id@ == server.key_id@);
                        }
                    }
                    assert(servers[k].key_id@ == q);
                }
            }
        }
    }
}

proof fn first_keyless_server(servers: Seq<AuthServerConfig>, k: nat, n: nat)
    requires
        k < n <= servers.len(),
        forall|l: int| 0 <= l < k ==> has_key(#[trigger] servers[l]),
        !has_key(servers[k as int]),
    ensures
        store::loaded_servers(servers, n) == Err::<Seq<(Seq<char>, RecordView)>, _>(
            AuthErrorView::InvalidPublicKey(servers[k as int].key_id@),
        ),
    decreases n,
{
    if n == k + 1 {
        first_servers(servers, k);
    } else {
        first_keyless_server(servers, k, (n - 1) as nat);
    }
}

/// Which configurations are accepted: those in mode `signed` that name at least
/// one server and give every server a key.
pub proof fn which_configurations_load(config: AuthConfig)
    ensures
        (store::loaded_config(config) is Ok) == {
            &&& config.mode@ == "signed"@
            &&& config.servers@.len() >= 1
            &&& forall|k: int| 0 <= k < config.servers@.len() ==> has_key(#[trigger] config.servers@[k])
        },
        config.mode@ != "signed"@ ==> store::loaded_config(config) == Err::<
            Seq<(Seq<char>, RecordView)>,
            _,
        >(AuthErrorView::UnsupportedMode(config.mode@)),
        config.mode@ == "signed"@ && config.servers@.len() == 0 ==> store::loaded_config(config)
            == Err::<Seq<(Seq<char>, RecordView)>, _>(AuthErrorView::NoTrustedServers),
{
    let servers = config.servers@;
    if forall|k: int| 0 <= k < servers.len() ==> has_key(#[trigger] servers[k]) {
        first_servers(servers, servers.len());
    } else {
        let k = choose|k: int| 0 <= k < servers.len() && !has_key(#[trigger] servers[k]);
        let first = least_keyless(servers, k);
        first_keyless_server(servers, first as nat, servers.len());
    }
}

proof fn least_keyless(servers: Seq<AuthServerConfig>, k: int) -> (first: int)
    requires
        0 <= k < servers.len(),
        !has_key(servers[k]),
    ensures
        0 <= first <= k,
        !has_key(servers[first]),
        forall|l: int| 0 <= l < first ==> has_key(#[trigger] servers[l]),
    decreases k,
{
    if exists|l: int| 0 <= l < k && !has_key(#[trigger] servers[l]) {
        let l = choose|l: int| 0 <= l < k && !has_key(#[trigger] servers[l]);
        least_keyless(servers, l)
    } else {
        k
    }
}

/// The first server without a key is the one that is reported.
pub proof fn first_server_without_a_key_is_reported(config: AuthConfig, k: int)
    requires
        config.mode@ == "signed"@,
        0 <= k < config.servers@.len(),
        !has_key(config.servers@[k]),
        forall|l: int| 0 <= l < k ==> has_key(#[trigger] config.servers@[l]),
    ensures
        store::loaded_config(config) == Err::<Seq<(Seq<char>, RecordView)>, _>(
            AuthErrorView::InvalidPublicKey(config.servers@[k].key_id@),
        ),
{
    first_keyless_server(config.servers@, k as nat, config.servers@.len());
}

/// A loaded configuration knows exactly the key identifiers that it was given.
/// Under each stands the last server of that identifier, with its name, its key
/// and exactly the permissions of its list.
pub proof fn what_a_configuration_trusts(config: AuthConfig, key_id: Seq<char>)
    requires
        store::loaded_config(config) is Ok,
    ensures
        match names::lookup(store::loaded_config(config)->Ok_0, key_id) {
            Some(record) => exists|k: int|
                0 <= k < config.servers@.len() && (#[trigger] config.servers@[k]).key_id@ == key_id
                    && records(record, config.servers@[k]) && forall|l: int|
                    k < l < config.servers@.len() ==> (#[trigger] config.servers@[l]).key_id@
                        != key_id,
            None => forall|k: int|
                0 <= k < config.servers@.len() ==> (#[trigger] config.servers@[k]).key_id@ != key_id,
        },
{
    which_configurations_load(config);
    first_servers(config.servers@, config.servers@.len());
}

/// The timestamp is less than 301 seconds before or after `now`.
pub open spec fn close_in_time(timestamp: Seq<char>, now: UtcInstant) -> bool {
    time::parsed_rfc3339(timestamp) matches Ok(at) && {
        let apart = time::nanoseconds_between(UtcInstant { seconds: at.0, nanos: at.1 }, now);
        -301_000_000_000 < apart < 301_000_000_000
    }
}

/// The nonce has a character that is no white space, and takes at most 128 bytes.
pub open spec fn usable_nonce(nonce: Seq<char>) -> bool {
    &&& exists|i: int| 0 <= i < nonce.len() && !text::is_whitespace(#[trigger] nonce[i])
    &&& vstd::utf8::encode_utf8(nonce).len() <= 128
}

/// The key's nonce was seen within the last 600 seconds.
pub open spec fn seen_lately(
    seen: Seq<(Seq<char>, UtcInstant)>,
    key_id: Seq<char>,
    nonce: Seq<char>,
    now: UtcInstant,
) -> bool {
    exists|s: int|
        0 <= s < seen.len() && (#[trigger] seen[s]).0 == key_id + seq![':'] + nonce && (
        seen[s].1.seconds > now.seconds - 600 || (seen[s].1.seconds == now.seconds - 600
            && seen[s].1.nanos >= now.nanos))
}

/// The text is the digest of the body in hexadecimal digits of either case.
pub open spec fn is_digest(value: Seq<char>, body: Seq<u8>) -> bool {
    let digits = digest::hex(digest::sha256(body));
    &&& value.len() == digits.len()
    &&& forall|i: int|
        0 <= i < value.len() ==> #[trigger] value[i] == digits[i] || ('A' <= value[i] <= 'F'
            && value[i] as int + 32 == digits[i] as int)
}

/// The header names the algorithm and carries 64 bytes in Base64.
pub open spec fn carried_signature(header: Seq<char>) -> Option<Seq<u8>> {
    if header.len() >= 8 && header.take(8) == seq!['e', 'd', '2', '5', '5', '1', '9', ':'] {
        match signature::decoded_base64(header.skip(8)) {
            Some(bytes) => if bytes.len() == 64 {
                Some(bytes)
            } else {
                None
            },
            None => None,
        }
    } else {
        None
    }
}

/// The signature over the five lines of the request.
pub open spec fn signed_with(
    key: Seq<u8>,
    method: Seq<char>,
    path_and_query: Seq<char>,
    content_sha256: Seq<char>,
    timestamp: Seq<char>,
    nonce: Seq<char>,
    bytes: Seq<u8>,
) -> bool {
    let line = seq!['\n'];
    signature::signature_holds(
        key,
        vstd::utf8::encode_utf8(
            method + line + path_and_query + line + content_sha256 + line + timestamp + line + nonce,
        ),
        bytes,
    )
}

proof fn trimming_keeps_the_rest(s: Seq<char>)
    ensures
        (text::trimmed(s).len() > 0) == exists|i: int|
            0 <= i < s.len() && !text::is_whitespace(#[trigger] s[i]),
{
    let t = text::trimmed_start(s);
    trimming_the_start(s);
    trimming_the_end(t);
    if exists|i: int| 0 <= i < s.len() && !text::is_whitespace(#[trigger] s[i]) {
        assert(t.len() > 0 && !text::is_whitespace(t[0]));
    }
    if text::trimmed(s).len() > 0 {
        let k = choose|k: int| 0 <= k < t.len() && !text::is_whitespace(#[trigger] t[k]);
        assert(t[k] == s[s.len() - t.len() + k]);
    }
}

proof fn trimming_the_start(s: Seq<char>)
    ensures
        ({
            let t = text::trimmed_start(s);
            &&& t.len() <= s.len()
            &&& forall|k: int|
                0 <= k < t.len() ==> #[trigger] t[k] == s[s.len() - t.len() + k]
            &&& t.len() > 0 ==> !text::is_whitespace(t[0])
            &&& t.len() == 0 ==> forall|i: int|
                0 <= i < s.len() ==> text::is_whitespace(#[trigger] s[i])
        }),
    decreases s.len(),
{
    if s.len() > 0 && text::is_whitespace(s[0]) {
        let rest = s.drop_first();
        trimming_the_start(rest);
        if text::trimmed_start(s).len() == 0 {
            assert forall|i: int| 0 <= i < s.len() implies text::is_whitespace(#[trigger] s[i]) by {
                if i > 0 {
                    assert(s[i] == rest[i - 1]);
                }
            }
        }
    }
}

proof fn trimming_the_end(s: Seq<char>)
    ensures
        (text::trimmed_end(s).len() > 0) == exists|i: int|
            0 <= i < s.len() && !text::is_whitespace(#[trigger] s[i]),
    decreases s.len(),
{
    if s.len() > 0 {
        let rest = s.drop_last();
        if text::is_whitespace(s.last()) {
            trimming_the_end(rest);
            if exists|i: int| 0 <= i < rest.len() && !text::is_whitespace(#[trigger] rest[i]) {
                let i = choose|i: int|
                    0 <= i < rest.len() && !text::is_whitespace(#[trigger] rest[i]);
                assert(!text::is_whitespace(s[i]));
            }
            if exists|i: int| 0 <= i < s.len() && !text::is_whitespace(#[trigger] s[i]) {
                let i = choose|i: int| 0 <= i < s.len() && !text::is_whitespace(#[trigger] s[i]);
                assert(!text::is_whitespace(rest[i]));
            }
        } else {
            assert(!text::is_whitespace(s[s.len() - 1]));
        }
    }
}

/// A checksum matches a body exactly if it is the body's digest, in digits of
/// either case.
pub proof fn which_checksums_match(value: Seq<char>, body: Seq<u8>)
    ensures
        text::equal_ignoring_case(value, digest::sha256_text(body)) == is_digest(value, body),
{
    let digits = digest::hex(digest::sha256(body));
    digest::hex_digits(digest::sha256(body));
    if value.len() == digits.len() {
        assert forall|i: int| 0 <= i < value.len() implies (text::ascii_uppercase(
            #[trigger] value[i],
        ) == text::ascii_uppercase(digits[i])) == (value[i] == digits[i] || ('A' <= value[i] <= 'F'
            && value[i] as int + 32 == digits[i] as int)) by {
            assert(text::is_lower_hex_digit(digits[i]));
        }
    }
}

proof fn nonces_are_remembered(seen: Seq<(Seq<char>, UtcInstant)>, now: UtcInstant, key: Seq<char>)
    requires
        names::names_sorted(seen),
        now.clock_reading(),
    ensures
        names::names_sorted(names::kept(seen, store::remembered(now))),
        names::has_name(names::kept(seen, store::remembered(now)), key) == exists|s: int|
            0 <= s < seen.len() && (#[trigger] seen[s]).0 == key && (seen[s].1.seconds > now.seconds
                - 600 || (seen[s].1.seconds == now.seconds - 600 && seen[s].1.nanos >= now.nanos)),
{
    names::kept_lookup(seen, store::remembered(now), key);
    if exists|s: int|
        0 <= s < seen.len() && (#[trigger] seen[s]).0 == key && (seen[s].1.seconds > now.seconds
            - 600 || (seen[s].1.seconds == now.seconds - 600 && seen[s].1.nanos >= now.nanos)) {
        let s = choose|s: int|
            0 <= s < seen.len() && (#[trigger] seen[s]).0 == key && (seen[s].1.seconds > now.seconds
                - 600 || (seen[s].1.seconds == now.seconds - 600 && seen[s].1.nanos >= now.nanos));
        names::lookup_at(seen, s);
    }
    if names::has_name(names::kept(seen, store::remembered(now)), key) {
        let s = names::position_of(seen, key);
        names::lookup_at(seen, s);
        assert(seen[s].0 == key);
    }
}

/// The headers carry these texts.
pub open spec fn carry(
    headers: SignedHeaders,
    key_id: Seq<char>,
    timestamp: Seq<char>,
    nonce: Seq<char>,
    content_sha256: Seq<char>,
    signature: Seq<char>,
) -> bool {
    &&& headers.key_id matches HeaderText::Text(t) && t@ == key_id
    &&& headers.timestamp matches HeaderText::Text(t) && t@ == timestamp
    &&& headers.nonce matches HeaderText::Text(t) && t@ == nonce
    &&& headers.content_sha256 matches HeaderText::Text(t) && t@ == content_sha256
    &&& headers.signature matches HeaderText::Text(t) && t@ == signature
}

/// What becomes of a request whose headers are all there. It is accepted exactly
/// if its key is known, its timestamp is close to the clock, its nonce is usable
/// and was not seen lately, its checksum is the body's digest, and the key's
/// signature over its five lines holds. What fails first, in this order, is the
/// reason why it is rejected. An accepted request has the name and the
/// permissions that stand under its key.
pub proof fn which_requests_are_accepted(
    auth: AuthStoreView,
    method: Seq<char>,
    path_and_query: Seq<char>,
    headers: SignedHeaders,
    body: Seq<u8>,
    now: UtcInstant,
    key_id: Seq<char>,
    timestamp: Seq<char>,
    nonce: Seq<char>,
    content_sha256: Seq<char>,
    header: Seq<char>,
)
    requires
        auth.valid(),
        now.clock_reading(),
        carry(headers, key_id, timestamp, nonce, content_sha256, header),
    ensures
        ({
            let outcome = auth.verified(method, path_and_query, headers, body, now).1;
            let rejected = |e: AuthRejectionView| outcome == Err::<ContextView, _>(e);
            if forall|k: int| 0 <= k < auth.keys.len() ==> (#[trigger] auth.keys[k]).0 != key_id {
                rejected(AuthRejectionView::InvalidKeyId)
            } else if !close_in_time(timestamp, now) {
                rejected(AuthRejectionView::InvalidTimestamp)
            } else if !usable_nonce(nonce) {
                rejected(AuthRejectionView::InvalidNonce)
            } else if seen_lately(auth.seen, key_id, nonce, now) {
                rejected(AuthRejectionView::Replay)
            } else if !is_digest(content_sha256, body) {
                rejected(AuthRejectionView::ContentShaMismatch)
            } else if carried_signature(header) is None {
                rejected(AuthRejectionView::InvalidAuthorizationHeader)
            } else {
                forall|k: int|
                    0 <= k < auth.keys.len() && (#[trigger] auth.keys[k]).0 == key_id ==> if signed_with(
                        auth.keys[k].1.public_key,
                        method,
                        path_and_query,
                        content_sha256,
                        timestamp,
                        nonce,
                        carried_signature(header)->0,
                    ) {
                        outcome matches Ok(context) && context.key_id == key_id
                            && context.server_name == auth.keys[k].1.name && context.permissions
                            == auth.keys[k].1.permissions
                    } else {
                        rejected(AuthRejectionView::InvalidSignature)
                    }
            }
        }),
{
    reveal_strlit("ed25519:");
    reveal_strlit("\n");
    reveal_strlit(":");
    assert("ed25519:"@ =~= seq!['e', 'd', '2', '5', '5', '1', '9', ':']);
    assert("\n"@ =~= seq!['\n']);
    assert(":"@ =~= seq![':']);
    trimming_keeps_the_rest(nonce);
    which_checksums_match(content_sha256, body);
    nonces_are_remembered(auth.seen, now, store::replay_key(key_id, nonce));
    if header.len() >= 8 {
        assert(header.take(8) =~= header.subrange(0, 8));
    }
    assert forall|k: int| 0 <= k < auth.keys.len() && (#[trigger] auth.keys[k]).0
        == key_id implies names::lookup(auth.keys, key_id) == Some(auth.keys[k].1) by {
        names::lookup_at(auth.keys, k);
    }
    if names::has_name(auth.keys, key_id) {
        let k = names::position_of(auth.keys, key_id);
        assert(auth.keys[k].0 == key_id);
    }
    if let Ok(at) = time::parsed_rfc3339(timestamp) {
        let apart = time::nanoseconds_between(UtcInstant { seconds: at.0, nanos: at.1 }, now);
        assert((store::distance_seconds(UtcInstant { seconds: at.0, nanos: at.1 }, now) <= 300) == (
        -301_000_000_000 < apart < 301_000_000_000));
    }
}

/// A header that is missing or no text has the request rejected before anything
/// else; of several such headers the first counts, in the order key, timestamp,
/// nonce, checksum, signature.
pub proof fn incomplete_requests_are_rejected(
    auth: AuthStoreView,
    method: Seq<char>,
    path_and_query: Seq<char>,
    headers: SignedHeaders,
    body: Seq<u8>,
    now: UtcInstant,
)
    ensures
        ({
            let (after, outcome) = auth.verified(method, path_and_query, headers, body, now);
            let all = seq![
                headers.key_id,
                headers.timestamp,
                headers.nonce,
                headers.content_sha256,
                headers.signature,
            ];
            forall|h: int|
                0 <= h < 5 && !((#[trigger] all[h]) is Text) && (forall|g: int|
                    0 <= g < h ==> (#[trigger] all[g]) is Text) ==> after == auth && outcome == Err::<
                    ContextView,
                    _,
                >(
                    if all[h] is Missing {
                        AuthRejectionView::MissingAuthorization
                    } else {
                        AuthRejectionView::InvalidAuthorizationHeader
                    },
                )
        }),
{
    let all = seq![
        headers.key_id,
        headers.timestamp,
        headers.nonce,
        headers.content_sha256,
        headers.signature,
    ];
    let (after, outcome) = auth.verified(method, path_and_query, headers, body, now);
    assert forall|h: int|
        0 <= h < 5 && !((#[trigger] all[h]) is Text) && (forall|g: int|
            0 <= g < h ==> (#[trigger] all[g]) is Text) implies after == auth && outcome == Err::<
        ContextView,
        _,
    >(
        if all[h] is Missing {
            AuthRejectionView::MissingAuthorization
        } else {
            AuthRejectionView::InvalidAuthorizationHeader
        },
    ) by {
        assert(h > 0 ==> all[0] is Text);
        assert(h > 1 ==> all[1] is Text);
        assert(h > 2 ==> all[2] is Text);
        assert(h > 3 ==> all[3] is Text);
    }
}

/// A request of a known key that comes in time with a usable nonce leaves its
/// nonce behind, whether it is accepted or not, and nonces that were seen within
/// the last 600 seconds stay. No other request leaves one.
pub proof fn what_is_remembered(
    auth: AuthStoreView,
    method: Seq<char>,
    path_and_query: Seq<char>,
    headers: SignedHeaders,
    body: Seq<u8>,
    now: UtcInstant,
    key_id: Seq<char>,
    timestamp: Seq<char>,
    nonce: Seq<char>,
    content_sha256: Seq<char>,
    header: Seq<char>,
    other: int,
)
    requires
        auth.valid(),
        now.clock_reading(),
        carry(headers, key_id, timestamp, nonce, content_sha256, header),
    ensures
        ({
            let after = auth.verified(method, path_and_query, headers, body, now).0;
            let known = exists|k: int| 0 <= k < auth.keys.len() && (#[trigger] auth.keys[k]).0 == key_id;
            &&& after.keys == auth.keys
            &&& known && close_in_time(timestamp, now) && usable_nonce(nonce) ==> seen_lately(
                after.seen,
                key_id,
                nonce,
                now,
            )
            &&& !known || !close_in_time(timestamp, now) || !usable_nonce(nonce) ==> after.seen
                == auth.seen
            &&& 0 <= other < auth.seen.len() && (auth.seen[other].1.seconds > now.seconds - 600 || (
            auth.seen[other].1.seconds == now.seconds - 600 && auth.seen[other].1.nanos
                >= now.nanos)) ==> names::lookup(after.seen, auth.seen[other].0) == Some(
                auth.seen[other].1,
            )
            &&& forall|q: Seq<char>|
                q != key_id + seq![':'] + nonce && #[trigger] names::has_name(after.seen, q)
                    ==> names::has_name(auth.seen, q)
        }),
{
    which_requests_are_accepted(
        auth,
        method,
        path_and_query,
        headers,
        body,
        now,
        key_id,
        timestamp,
        nonce,
        content_sha256,
        header,
    );
    reveal_strlit(":");
    assert(":"@ =~= seq![':']);
    let key = store::replay_key(key_id, nonce);
    assert(key == key_id + seq![':'] + nonce);
    trimming_keeps_the_rest(nonce);
    let after = auth.verified(method, path_and_query, headers, body, now).0;
    let remaining = names::kept(auth.seen, store::remembered(now));
    nonces_are_remembered(auth.seen, now, key);
    names::inserted_sorted(remaining, key, now);
    names::inserted_lookup(remaining, key, now, key);
    if names::has_name(auth.keys, key_id) {
        let k = names::position_of(auth.keys, key_id);
        assert(auth.keys[k].0 == key_id);
    } else {
        assert forall|k: int| 0 <= k < auth.keys.len() implies (#[trigger] auth.keys[k]).0 != key_id by {}
    }
    if let Ok(at) = time::parsed_rfc3339(timestamp) {
        let apart = time::nanoseconds_between(UtcInstant { seconds: at.0, nanos: at.1 }, now);
        assert((store::distance_seconds(UtcInstant { seconds: at.0, nanos: at.1 }, now) <= 300) == (
        -301_000_000_000 < apart < 301_000_000_000));
    }
    if 0 <= other < auth.seen.len() {
        let name = auth.seen[other].0;
        names::lookup_at(auth.seen, other);
        names::kept_lookup(auth.seen, store::remembered(now), name);
        names::inserted_lookup(remaining, key, now, name);
    }
    assert forall|q: Seq<char>|
        q != key_id + seq![':'] + nonce && #[trigger] names::has_name(
            after.seen,
            q,
        ) implies names::has_name(auth.seen, q) by {
        names::kept_lookup(auth.seen, store::remembered(now), q);
        names::inserted_lookup(remaining, key, now, q);
    }
    if after.seen == names::inserted(remaining, key, now) {
        let s = names::position_of(after.seen, key);
        names::lookup_at(after.seen, s);
        assert(after.seen[s].0 == key_id + seq![':'] + nonce);
    } else if after.seen == remaining && names::has_name(remaining, key) {
        let s = names::position_of(remaining, key);
        names::lookup_at(remaining, s);
        names::kept_lookup(auth.seen, store::remembered(now), key);
        assert(remaining[s].0 == key_id + seq![':'] + nonce);
    }
}

/// A verified request may do exactly what its permissions list; without a
/// verified request nothing may be done.
pub proof fn who_may_do_what(context: Option<AuthContext>, wanted: Seq<char>)
    ensures
        match context {
            None => permission::authorization(context, wanted) == Err::<Seq<char>, _>(
                AuthRejectionView::MissingAuthorization,
            ),
            Some(c) => permission::authorization(context, wanted) == if exists|i: int|
                0 <= i < c.permissions@.len() && (#[trigger] c.permissions@[i]).0 == wanted {
                Ok(c.server_name@)
            } else {
                Err(
                    AuthRejectionView::MissingPermission {
                        server_name: c.server_name@,
                        permission: wanted,
                    },
                )
            },
        },
{
}

/// Each endpoint asks for a permission of its own: what it does, and to what.
pub proof fn which_permissions_there_are()
    ensures
        ArtifactsWrite::permission() == "artifacts:write"@,
        ArtifactsRead::permission() == "artifacts:read"@,
        JobsRun::permission() == "jobs:run"@,
        JobsRead::permission() == "jobs:read"@,
        LogsRead::permission() == "logs:read"@,
{
}

} // verus!
