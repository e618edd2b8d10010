//! API keys, and the derivation of scoped search keys.
//!
//! A scoped search key embeds a set of fixed search parameters into a key
//! derived from a parent key: the parameters are serialized, authenticated
//! with HMAC-SHA256 under the parent key, and the tag, a key prefix and the
//! parameters are encoded together.

use vstd::prelude::*;
use vstd::utf8::encode_utf8;

use crate::json::{dec_digits, spec_json_object, spec_json_string, JsonObject};
use crate::query::spec_join;
use crate::response::Error;

use hmac::Mac;

verus! {

/// An API key as created on the engine.
#[derive(Debug, Clone)]
pub struct ApiKey {
    pub description: String,
    pub actions: Vec<String>,
    pub collections: Vec<String>,
    pub value: Option<String>,
    pub expires_at: Option<u64>,
}

/// The scope of an API-key action.
#[derive(Debug, Clone, Copy, PartialEq, Eq, Structural)]
pub enum ApiAction {
    All,
}

/// The engine's answer to deleting a key.
#[derive(Debug, Clone)]
pub struct ApiKeyDeleteResponse {
    pub id: usize,
}

/// One stored key as the engine reports it.
#[derive(Debug, Clone)]
pub struct ApiKeyResponse {
    pub id: usize,
    pub description: String,
    pub actions: Vec<String>,
    pub collections: Vec<String>,
    pub value_prefix: String,
}

/// All stored keys.
#[derive(Debug, Clone)]
pub struct ApiKeyResponses {
    pub keys: Vec<ApiKeyResponse>,
}

/// The HMAC-SHA256 tag of a message under a key. The tag is a function of
/// the key and message bytes alone.
pub uninterp spec fn hmac_sha256_of(key: Seq<u8>, msg: Seq<u8>) -> Seq<u8>;

/// Relies on hmac's `Hmac<Sha256>`: the 32-byte tag depends on the key and
/// message bytes alone, and any key length is accepted.
#[verifier::external_body]
fn hmac_sha256(key: &Vec<u8>, msg: &Vec<u8>) -> (r: Vec<u8>)
    ensures
        r@ == hmac_sha256_of(key@, msg@),
        r@.len() == 32,
{
    let mut mac = <hmac::Hmac<sha2::Sha256> as hmac::KeyInit>::new_from_slice(key.as_slice())
        .expect("any key length is accepted");
    mac.update(msg.as_slice());
    mac.finalize().into_bytes().to_vec()
}

/// The base64 encoding of bytes under the standard alphabet with padding.
/// The encoding is a function of the bytes alone.
pub uninterp spec fn base64_of(bytes: Seq<u8>) -> Seq<char>;

/// Relies on base64's standard engine: the encoding depends on the bytes
/// alone; with padding it yields four characters per started group of three
/// bytes.
#[verifier::external_body]
fn base64_encode(bytes: &Vec<u8>) -> (r: String)
    ensures
        r@ == base64_of(bytes@),
        r@.len() == 4 * ((bytes@.len() + 2) / 3),
{
    base64::Engine::encode(&base64::engine::general_purpose::STANDARD, bytes.as_slice())
}

/// Relies on std's `SystemTime`: the seconds since the Unix epoch at the
/// moment of the call, or zero should the clock stand before the epoch.
/// Nothing can be promised of the clock's reading.
#[verifier::external_body]
fn now_unix_secs() -> u64 {
    std::time::SystemTime::now()
        .duration_since(std::time::UNIX_EPOCH)
        .map(|d| d.as_secs())
        .unwrap_or(0)
}

/// The fixed search parameters a scoped key embeds.
#[derive(Debug, Clone)]
pub struct GenerateScopedSearchKey {
    pub query_by: Option<String>,
    pub filter_by: Option<String>,
    pub exclude_fields: Option<String>,
    pub limit_hits: Option<u64>,
    pub expires_at: u64,
}

/// The members of the embedded-parameter JSON object: each set parameter in
/// declaration order, the expiry always.
pub open spec fn spec_scoped_params_pairs(p: GenerateScopedSearchKey) -> Seq<
    (Seq<char>, Seq<char>),
> {
    let pairs = Seq::<(Seq<char>, Seq<char>)>::empty();
    let pairs = match p.query_by {
        Some(s) => pairs.push(("query_by"@, spec_json_string(s@))),
        None => pairs,
    };
    let pairs = match p.filter_by {
        Some(s) => pairs.push(("filter_by"@, spec_json_string(s@))),
        None => pairs,
    };
    let pairs = match p.exclude_fields {
        Some(s) => pairs.push(("exclude_fields"@, spec_json_string(s@))),
        None => pairs,
    };
    let pairs = match p.limit_hits {
        Some(n) => pairs.push(("limit_hits"@, dec_digits(n as nat))),
        None => pairs,
    };
    pairs.push(("expires_at"@, dec_digits(p.expires_at as nat)))
}

/// The embedded parameters' JSON wire form.
pub open spec fn spec_scoped_params_json(p: GenerateScopedSearchKey) -> Seq<char> {
    spec_json_object(spec_scoped_params_pairs(p))
}

/// The derived scoped key before its final encoding: the base64 of the
/// parameters' tag under the parent key, then the parent key's first four
/// characters, then the parameters.
pub open spec fn spec_raw_scoped_key(key: Seq<char>, params: Seq<char>) -> Seq<char> {
    base64_of(hmac_sha256_of(encode_utf8(key), encode_utf8(params))) + key.subrange(0, 4) + params
}

/// The finished scoped key: the raw key, base64-encoded.
pub open spec fn spec_scoped_key(key: Seq<char>, params: Seq<char>) -> Seq<char> {
    base64_of(encode_utf8(spec_raw_scoped_key(key, params)))
}

impl GenerateScopedSearchKey {
    /// Renders the embedded parameters, unset ones omitted.
    pub fn to_json(&self) -> (r: String)
        ensures
            r@ == spec_scoped_params_json(*self),
    {
        let mut obj = JsonObject::new();
        if let Some(s) = &self.query_by {
            obj.member_str("query_by", s.as_str());
        }
        if let Some(s) = &self.filter_by {
            obj.member_str("filter_by", s.as_str());
        }
        if let Some(s) = &self.exclude_fields {
            obj.member_str("exclude_fields", s.as_str());
        }
        if let Some(n) = self.limit_hits {
            obj.member_u64("limit_hits", n);
        }
        obj.member_u64("expires_at", self.expires_at);
        proof {
            assert(obj.pairs() =~= spec_scoped_params_pairs(*self));
        }
        obj.finish()
    }
}

/// Starts a scoped-search-key derivation from the parent key, expiring the
/// given number of seconds from now.
pub fn generate_scoped_search_key(key: &str, expire_in: u64) -> (r: GenerateScopedSearchKeyBuilder)
    ensures
        r.key@ == key@,
        r.filters.query_by is None,
        r.filters.filter_by is None,
        r.filters.exclude_fields is None,
        r.filters.limit_hits is None,
{
    let builder = GenerateScopedSearchKeyBuilder {
        key: key.to_owned(),
        filters: GenerateScopedSearchKey {
            query_by: None,
            filter_by: None,
            exclude_fields: None,
            limit_hits: None,
            expires_at: 0,
        },
    };
    builder.expire_in(expire_in)
}

/// Accumulates the fixed parameters of a scoped search key.
#[derive(Debug, Clone)]
pub struct GenerateScopedSearchKeyBuilder {
    pub key: String,
    pub filters: GenerateScopedSearchKey,
}

impl GenerateScopedSearchKeyBuilder {
    /// Sets the expiry to the given number of seconds from now, saturating
    /// at the largest representable time. The clock's reading itself cannot
    /// be pinned down; everything else is left untouched.
    pub fn expire_in(self, expire_in: u64) -> (r: Self)
        ensures
            r.key == self.key,
            r.filters.query_by == self.filters.query_by,
            r.filters.filter_by == self.filters.filter_by,
            r.filters.exclude_fields == self.filters.exclude_fields,
            r.filters.limit_hits == self.filters.limit_hits,
    {
        let now = now_unix_secs();
        let expires_at = if u64::MAX - now < expire_in {
            u64::MAX
        } else {
            now + expire_in
        };
        let mut ret = self;
        ret.filters.expires_at = expires_at;
        ret
    }

    /// Restricts the scoped key to querying the given fields, joined by
    /// commas.
    pub fn query_by(self, fields: &Vec<String>) -> (r: Self)
        ensures
            r.key == self.key,
            r.filters.query_by matches Some(s) && s@ == spec_join(fields.deep_view(), ","@),
            r.filters.filter_by == self.filters.filter_by,
            r.filters.exclude_fields == self.filters.exclude_fields,
            r.filters.limit_hits == self.filters.limit_hits,
            r.filters.expires_at == self.filters.expires_at,
    {
        let joined = crate::query::join_strings(fields, ",");
        let mut ret = self;
        ret.filters.query_by = Some(joined);
        ret
    }

    /// Fixes a filter expression into the scoped key.
    pub fn filter_by(self, filter_by: &str) -> (r: Self)
        ensures
            r.key == self.key,
            r.filters.filter_by matches Some(s) && s@ == filter_by@,
            r.filters.query_by == self.filters.query_by,
            r.filters.exclude_fields == self.filters.exclude_fields,
            r.filters.limit_hits == self.filters.limit_hits,
            r.filters.expires_at == self.filters.expires_at,
    {
        let mut ret = self;
        ret.filters.filter_by = Some(filter_by.to_owned());
        ret
    }

    /// Caps the number of hits the scoped key may retrieve.
    pub fn limit_hits(self, limit_hits: u64) -> (r: Self)
        ensures
            r.key == self.key,
            r.filters.limit_hits == Some(limit_hits),
            r.filters.query_by == self.filters.query_by,
            r.filters.filter_by == self.filters.filter_by,
            r.filters.exclude_fields == self.filters.exclude_fields,
            r.filters.expires_at == self.filters.expires_at,
    {
        let mut ret = self;
        ret.filters.limit_hits = Some(limit_hits);
        ret
    }

    /// Hides the given fields from responses, joined by commas.
    pub fn exclude_fields(self, fields: &Vec<String>) -> (r: Self)
        ensures
            r.key == self.key,
            r.filters.exclude_fields matches Some(s) && s@ == spec_join(fields.deep_view(), ","@),
            r.filters.query_by == self.filters.query_by,
            r.filters.filter_by == self.filters.filter_by,
            r.filters.limit_hits == self.filters.limit_hits,
            r.filters.expires_at == self.filters.expires_at,
    {
        let joined = crate::query::join_strings(fields, ",");
        let mut ret = self;
        ret.filters.exclude_fields = Some(joined);
        ret
    }

    /// Derives the scoped key: the parameters are rendered, authenticated
    /// under the parent key, and encoded together with the parent key's
    /// four-character prefix. The parent key must be at least four
    /// characters long, since its prefix identifies it to the engine.
    pub fn build(&self) -> (r: Result<String, Error>)
        requires
            self.key@.len() >= 4,
        ensures
            r matches Ok(s) && s@ == spec_scoped_key(
                self.key@,
                spec_scoped_params_json(self.filters),
            ),
    {
        let params = self.filters.to_json();

        let key_bytes = self.key.as_str().as_bytes_vec();
        let params_bytes = params.as_str().as_bytes_vec();
        let digest = hmac_sha256(&key_bytes, &params_bytes);

        let digest_b64 = base64_encode(&digest);

        let key_prefix = self.key.as_str().substring_char(0, 4);

        let mut raw = digest_b64;
        raw.append(key_prefix);
        raw.append(params.as_str());
        proof {
            assert(raw@ =~= spec_raw_scoped_key(self.key@, params@));
        }

        let raw_bytes = raw.as_str().as_bytes_vec();
        Ok(base64_encode(&raw_bytes))
    }
}

} // verus!
