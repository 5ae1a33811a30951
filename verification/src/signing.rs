//! Request signing: the canonical URL of a call, the message that is signed,
//! and the signed URL that goes on the wire.

use crate::client::ApiKeyPair;
use crate::helper::hmac_accepts;
use crate::helper::HMAC_INPUT_LIMIT;
use crate::helper::is_random_uuid;
use crate::helper::Nonce;
use crate::helper::nonce;
use crate::helper::now;
use crate::helper::sign_bytes;
use crate::helper::signature_of;
use crate::helper::uuid_text;
use crate::text::count_of;
use crate::text::decimal;
use crate::text::lemma_ascii_len;
use crate::text::lemma_count_concat;
use crate::text::lemma_count_zero;
use crate::text::lemma_decimal_u64;
use crate::text::lemma_encode_utf8_concat;
use crate::text::lemma_encode_utf8_nul;
use crate::text::lemma_hex_fixed;
use crate::text::lemma_nul_free;
use crate::text::nul_free;
use crate::text::push_decimal;
use vstd::prelude::*;
use vstd::string::*;
use vstd::utf8::encode_utf8;
use vstd::utf8::is_ascii_chars;

verus! {

/// The address that every endpoint path is appended to.
pub const API_BASE_URL: &'static str = "https://api.letterboxd.com/api/v0/";

/// The HTTP methods the API is called with.
#[derive(Clone, Copy, Debug, PartialEq, Eq, Structural)]
pub enum Method {
    Get,
    Post,
    Patch,
    Delete,
}

impl Method {
    /// The method's name as it is signed and sent: upper case.
    pub open spec fn name(self) -> Seq<char> {
        match self {
            Method::Get => "GET"@,
            Method::Post => "POST"@,
            Method::Patch => "PATCH"@,
            Method::Delete => "DELETE"@,
        }
    }

    /// Whether the calls with this method require authentication: those
    /// that create, update or remove do, those that read do not.
    pub open spec fn auth_required(self) -> bool {
        self != Method::Get
    }

    /// Whether the calls with this method require authentication.
    pub fn requires_auth(&self) -> (required: bool)
        ensures
            required == self.auth_required(),
    {
        match self {
            Method::Get => false,
            Method::Post => true,
            Method::Patch => true,
            Method::Delete => true,
        }
    }

    /// The method's name as it is signed and sent.
    pub fn as_str(&self) -> (name: &'static str)
        ensures
            name@ == self.name(),
    {
        match self {
            Method::Get => "GET",
            Method::Post => "POST",
            Method::Patch => "PATCH",
            Method::Delete => "DELETE",
        }
    }
}

/// The URL of a call before it is signed: address, path, then the key, the
/// nonce and the timestamp as the first three query parameters, then the
/// call's own parameters if there are any. `query` is taken as it is: it is
/// the caller who encodes it.
pub open spec fn canonical_url(
    base_url: Seq<char>,
    endpoint: Seq<char>,
    api_key: Seq<char>,
    nonce: u128,
    timestamp: u64,
    query: Seq<char>,
) -> Seq<char> {
    base_url + endpoint + "?apikey="@ + api_key + "&nonce="@ + uuid_text(nonce) + "&timestamp="@
        + decimal(timestamp as nat) + (if query.len() > 0 {
        "&"@ + query
    } else {
        Seq::<char>::empty()
    })
}

/// The bytes that are signed: method name, URL and body, each in UTF-8,
/// with one NUL byte between neighbours. The two NUL bytes are there
/// whatever is empty.
pub open spec fn canonical_message(method: Method, url: Seq<char>, body: Seq<u8>) -> Seq<u8> {
    encode_utf8(method.name()) + seq![0u8] + encode_utf8(url) + seq![0u8] + body
}

/// The signature of a call: the keyed hash of its canonical message under
/// the UTF-8 bytes of the secret, in lower-case hexadecimal.
pub open spec fn call_signature(
    secret: Seq<char>,
    method: Method,
    url: Seq<char>,
    body: Seq<u8>,
) -> Seq<char> {
    signature_of(encode_utf8(secret), canonical_message(method, url, body))
}

/// A canonical URL with its signature as the last query parameter.
pub open spec fn with_signature(url: Seq<char>, signature: Seq<char>) -> Seq<char> {
    url + "&signature="@ + signature
}

/// The signed URL of a call.
pub open spec fn signed_url(
    secret: Seq<char>,
    method: Method,
    url: Seq<char>,
    body: Seq<u8>,
) -> Seq<char> {
    with_signature(url, call_signature(secret, method, url, body))
}

/// Whether secret and message of a call are short enough for the keyed hash.
pub open spec fn signable(secret: Seq<char>, method: Method, url: Seq<char>, body: Seq<u8>) -> bool {
    hmac_accepts(encode_utf8(secret), canonical_message(method, url, body))
}

/// The bytes that signing adds around a call's own text, at most: 6 of the
/// method name, 2 separators, 27 of parameter names and the `&` before the
/// query, 36 of the nonce and 20 of the timestamp.
pub const SIGNING_OVERHEAD: u64 = 91;

/// Whether a call is short enough to be signed whatever nonce and timestamp
/// it gets, by the UTF-8 lengths of its parts.
pub open spec fn fits(
    secret: Seq<char>,
    base_url: Seq<char>,
    endpoint: Seq<char>,
    api_key: Seq<char>,
    query: Seq<char>,
    body: Seq<u8>,
) -> bool {
    &&& encode_utf8(secret).len() < HMAC_INPUT_LIMIT
    &&& encode_utf8(base_url).len() + encode_utf8(endpoint).len() + encode_utf8(api_key).len()
        + encode_utf8(query).len() + body.len() + SIGNING_OVERHEAD < HMAC_INPUT_LIMIT
}

/// A method name is at most six ASCII letters.
pub proof fn lemma_method_name(method: Method)
    ensures
        is_ascii_chars(method.name()),
        3 <= method.name().len() <= 6,
        encode_utf8(method.name()).len() == method.name().len(),
        forall|i: int| 0 <= i < method.name().len() ==> method.name()[i] != '\0',
{
    reveal_strlit("GET");
    reveal_strlit("POST");
    reveal_strlit("PATCH");
    reveal_strlit("DELETE");
    lemma_ascii_len(method.name());
}

/// The wire form of a nonce is 36 ASCII characters.
pub proof fn lemma_uuid_text(value: u128)
    ensures
        uuid_text(value).len() == 36,
        is_ascii_chars(uuid_text(value)),
{
    lemma_hex_fixed(value as nat, 32);
}

/// The canonical URL is longer than the call's own parts by at most 83
/// bytes.
pub proof fn lemma_canonical_url_len(
    base_url: Seq<char>,
    endpoint: Seq<char>,
    api_key: Seq<char>,
    nonce: u128,
    timestamp: u64,
    query: Seq<char>,
)
    ensures
        encode_utf8(canonical_url(base_url, endpoint, api_key, nonce, timestamp, query)).len()
            <= encode_utf8(base_url).len() + encode_utf8(endpoint).len() + encode_utf8(
            api_key,
        ).len() + encode_utf8(query).len() + 83,
{
    reveal_strlit("?apikey=");
    reveal_strlit("&nonce=");
    reveal_strlit("&timestamp=");
    reveal_strlit("&");
    lemma_uuid_text(nonce);
    lemma_decimal_u64(timestamp);
    let tail = if query.len() > 0 {
        "&"@ + query
    } else {
        Seq::<char>::empty()
    };
    let u1 = base_url + endpoint;
    let u2 = u1 + "?apikey="@;
    let u3 = u2 + api_key;
    let u4 = u3 + "&nonce="@;
    let u5 = u4 + uuid_text(nonce);
    let u6 = u5 + "&timestamp="@;
    let u7 = u6 + decimal(timestamp as nat);
    lemma_encode_utf8_concat(base_url, endpoint);
    lemma_encode_utf8_concat(u1, "?apikey="@);
    lemma_encode_utf8_concat(u2, api_key);
    lemma_encode_utf8_concat(u3, "&nonce="@);
    lemma_encode_utf8_concat(u4, uuid_text(nonce));
    lemma_encode_utf8_concat(u5, "&timestamp="@);
    lemma_encode_utf8_concat(u6, decimal(timestamp as nat));
    lemma_encode_utf8_concat(u7, tail);
    lemma_encode_utf8_concat("&"@, query);
    lemma_ascii_len("?apikey="@);
    lemma_ascii_len("&nonce="@);
    lemma_ascii_len("&timestamp="@);
    lemma_ascii_len("&"@);
    lemma_ascii_len(uuid_text(nonce));
    lemma_ascii_len(decimal(timestamp as nat));
    assert(encode_utf8(Seq::<char>::empty()).len() == 0);
}

/// A call that fits can be signed with every nonce and timestamp.
pub proof fn lemma_fits_signable(
    secret: Seq<char>,
    method: Method,
    base_url: Seq<char>,
    endpoint: Seq<char>,
    api_key: Seq<char>,
    nonce: u128,
    timestamp: u64,
    query: Seq<char>,
    body: Seq<u8>,
)
    requires
        fits(secret, base_url, endpoint, api_key, query, body),
    ensures
        signable(
            secret,
            method,
            canonical_url(base_url, endpoint, api_key, nonce, timestamp, query),
            body,
        ),
{
    lemma_canonical_url_len(base_url, endpoint, api_key, nonce, timestamp, query);
    lemma_method_name(method);
}

/// The signed message holds its two separators and no other NUL byte but
/// those that URL and body bring along, whether or not query or body are
/// empty.
pub proof fn lemma_message_separators(method: Method, url: Seq<char>, body: Seq<u8>)
    ensures
        count_of(canonical_message(method, url, body), 0u8) == 2 + count_of(url, '\0') + count_of(
            body,
            0u8,
        ),
        canonical_message(method, url, body)[method.name().len() as int] == 0u8,
        canonical_message(method, url, body)[(method.name().len() + 1 + encode_utf8(
            url,
        ).len()) as int] == 0u8,
        canonical_message(method, url, body).len() == method.name().len() + encode_utf8(url).len()
            + body.len() + 2,
{
    let name = encode_utf8(method.name());
    let sep = seq![0u8];
    lemma_method_name(method);
    lemma_count_zero(method.name(), '\0');
    lemma_encode_utf8_nul(method.name());
    lemma_encode_utf8_nul(url);
    assert(count_of(sep, 0u8) == 1) by {
        reveal_with_fuel(count_of, 2);
        assert(sep.drop_last() =~= Seq::<u8>::empty());
    }
    lemma_count_concat(name, sep, 0u8);
    lemma_count_concat(name + sep, encode_utf8(url), 0u8);
    lemma_count_concat(name + sep + encode_utf8(url), sep, 0u8);
    lemma_count_concat(name + sep + encode_utf8(url) + sep, body, 0u8);
}

/// With a URL and a body that hold no NUL, the signed message holds exactly
/// two NUL bytes: the separators.
pub proof fn lemma_exactly_two_separators(method: Method, url: Seq<char>, body: Seq<u8>)
    requires
        nul_free(url),
        forall|i: int| 0 <= i < body.len() ==> body[i] != 0u8,
    ensures
        count_of(canonical_message(method, url, body), 0u8) == 2,
{
    lemma_message_separators(method, url, body);
    lemma_count_zero(url, '\0');
    lemma_count_zero(body, 0u8);
}

/// The canonical URL holds no NUL character but those of the call's own
/// parts: what signing adds is free of them.
pub proof fn lemma_canonical_url_nul(
    base_url: Seq<char>,
    endpoint: Seq<char>,
    api_key: Seq<char>,
    nonce: u128,
    timestamp: u64,
    query: Seq<char>,
)
    ensures
        count_of(canonical_url(base_url, endpoint, api_key, nonce, timestamp, query), '\0')
            == count_of(base_url, '\0') + count_of(endpoint, '\0') + count_of(api_key, '\0')
            + count_of(query, '\0'),
{
    reveal_strlit("?apikey=");
    reveal_strlit("&nonce=");
    reveal_strlit("&timestamp=");
    reveal_strlit("&");
    lemma_nonce_and_time_nul(nonce, timestamp);
    let tail = if query.len() > 0 {
        "&"@ + query
    } else {
        Seq::<char>::empty()
    };
    let u1 = base_url + endpoint;
    let u2 = u1 + "?apikey="@;
    let u3 = u2 + api_key;
    let u4 = u3 + "&nonce="@;
    let u5 = u4 + uuid_text(nonce);
    let u6 = u5 + "&timestamp="@;
    let u7 = u6 + decimal(timestamp as nat);
    lemma_count_concat(base_url, endpoint, '\0');
    lemma_count_concat(u1, "?apikey="@, '\0');
    lemma_count_concat(u2, api_key, '\0');
    lemma_count_concat(u3, "&nonce="@, '\0');
    lemma_count_concat(u4, uuid_text(nonce), '\0');
    lemma_count_concat(u5, "&timestamp="@, '\0');
    lemma_count_concat(u6, decimal(timestamp as nat), '\0');
    lemma_count_concat(u7, tail, '\0');
    lemma_count_concat("&"@, query, '\0');
    lemma_count_zero("?apikey="@, '\0');
    lemma_count_zero("&nonce="@, '\0');
    lemma_count_zero("&timestamp="@, '\0');
    lemma_count_zero("&"@, '\0');
    lemma_count_zero(Seq::<char>::empty(), '\0');
}

/// The message that is signed for a call holds exactly two NUL bytes, the
/// separators, whatever nonce and timestamp the call gets and whether or
/// not its query or its body are empty, as long as the call's own parts
/// hold no NUL.
pub proof fn lemma_call_separators(
    method: Method,
    base_url: Seq<char>,
    endpoint: Seq<char>,
    api_key: Seq<char>,
    nonce: u128,
    timestamp: u64,
    query: Seq<char>,
    body: Seq<u8>,
)
    requires
        nul_free(base_url),
        nul_free(endpoint),
        nul_free(api_key),
        nul_free(query),
        forall|i: int| 0 <= i < body.len() ==> body[i] != 0u8,
    ensures
        count_of(
            canonical_message(
                method,
                canonical_url(base_url, endpoint, api_key, nonce, timestamp, query),
                body,
            ),
            0u8,
        ) == 2,
{
    let url = canonical_url(base_url, endpoint, api_key, nonce, timestamp, query);
    lemma_canonical_url_nul(base_url, endpoint, api_key, nonce, timestamp, query);
    lemma_nul_free(base_url);
    lemma_nul_free(endpoint);
    lemma_nul_free(api_key);
    lemma_nul_free(query);
    lemma_nul_free(url);
    lemma_exactly_two_separators(method, url, body);
}

/// Neither the wire form of a nonce nor a decimal timestamp holds a NUL
/// character.
proof fn lemma_nonce_and_time_nul(nonce: u128, timestamp: u64)
    ensures
        count_of(uuid_text(nonce), '\0') == 0,
        count_of(decimal(timestamp as nat), '\0') == 0,
{
    lemma_hex_fixed(nonce as nat, 32);
    lemma_decimal_u64(timestamp);
    assert(nul_free(uuid_text(nonce)));
    lemma_nul_free(uuid_text(nonce));
    lemma_nul_free(decimal(timestamp as nat));
}

/// The signature is a function of secret, method, URL and body: whatever
/// is computed twice from the same four comes out the same.
pub proof fn lemma_signature_deterministic(
    first: Seq<char>,
    second: Seq<char>,
    secret: Seq<char>,
    method: Method,
    url: Seq<char>,
    body: Seq<u8>,
)
    requires
        first == call_signature(secret, method, url, body),
        second == call_signature(secret, method, url, body),
    ensures
        first == second,
        with_signature(url, first) == with_signature(url, second),
{
}

/// Builds the canonical URL of a call.
pub fn build_canonical_url(
    base_url: &str,
    endpoint: &str,
    api_key: &str,
    nonce: Nonce,
    timestamp: u64,
    query: &str,
) -> (url: String)
    ensures
        url@ == canonical_url(base_url@, endpoint@, api_key@, nonce@, timestamp, query@),
{
    let mut url = String::from_str(base_url);
    url.append(endpoint);
    url.append("?apikey=");
    url.append(api_key);
    url.append("&nonce=");
    let nonce_text = nonce.to_text();
    url.append(nonce_text.as_str());
    url.append("&timestamp=");
    push_decimal(&mut url, timestamp);
    if !query.is_empty() {
        url.append("&");
        url.append(query);
    }
    proof {
        let tail = if query@.len() > 0 {
            "&"@ + query@
        } else {
            Seq::<char>::empty()
        };
        assert(url@ =~= base_url@ + endpoint@ + "?apikey="@ + api_key@ + "&nonce="@ + uuid_text(
            nonce@,
        ) + "&timestamp="@ + decimal(timestamp as nat) + tail);
    }
    url
}

/// Builds the message that is signed for a call.
pub fn build_canonical_message(method: Method, url: &str, body: &[u8]) -> (message: Vec<u8>)
    ensures
        message@ == canonical_message(method, url@, body@),
{
    let mut message: Vec<u8> = Vec::new();
    message.extend_from_slice(method.as_str().as_bytes());
    message.push(0u8);
    message.extend_from_slice(url.as_bytes());
    message.push(0u8);
    message.extend_from_slice(body);
    assert(message@ =~= canonical_message(method, url@, body@));
    message
}

/// The canonical URL of a call by the owner of a key pair.
pub open spec fn call_url(
    api_key_pair: ApiKeyPair,
    base_url: Seq<char>,
    endpoint: Seq<char>,
    query: Seq<char>,
    nonce: u128,
    timestamp: u64,
) -> Seq<char> {
    canonical_url(base_url, endpoint, api_key_pair.key_view(), nonce, timestamp, query)
}

/// Whether a call by the owner of a key pair can be signed for the given
/// nonce and timestamp.
pub open spec fn call_signable(
    api_key_pair: ApiKeyPair,
    method: Method,
    base_url: Seq<char>,
    endpoint: Seq<char>,
    query: Seq<char>,
    body: Seq<u8>,
    nonce: u128,
    timestamp: u64,
) -> bool {
    signable(
        api_key_pair.secret_view(),
        method,
        call_url(api_key_pair, base_url, endpoint, query, nonce, timestamp),
        body,
    )
}

/// The signed URL of a call by the owner of a key pair.
pub open spec fn signed_call_url(
    api_key_pair: ApiKeyPair,
    method: Method,
    base_url: Seq<char>,
    endpoint: Seq<char>,
    query: Seq<char>,
    body: Seq<u8>,
    nonce: u128,
    timestamp: u64,
) -> Seq<char> {
    signed_url(
        api_key_pair.secret_view(),
        method,
        call_url(api_key_pair, base_url, endpoint, query, nonce, timestamp),
        body,
    )
}

/// Whether a call by the owner of a key pair fits, whatever nonce and
/// timestamp it gets.
pub open spec fn call_fits_at(
    api_key_pair: ApiKeyPair,
    base_url: Seq<char>,
    endpoint: Seq<char>,
    query: Seq<char>,
    body: Seq<u8>,
) -> bool {
    fits(
        api_key_pair.secret_view(),
        base_url,
        endpoint,
        api_key_pair.key_view(),
        query,
        body,
    )
}

/// A call that fits can be signed with every nonce and timestamp.
pub proof fn lemma_call_fits(
    api_key_pair: ApiKeyPair,
    method: Method,
    base_url: Seq<char>,
    endpoint: Seq<char>,
    query: Seq<char>,
    body: Seq<u8>,
    nonce: u128,
    timestamp: u64,
)
    requires
        call_fits_at(api_key_pair, base_url, endpoint, query, body),
    ensures
        call_signable(api_key_pair, method, base_url, endpoint, query, body, nonce, timestamp),
{
    lemma_fits_signable(
        api_key_pair.secret_view(),
        method,
        base_url,
        endpoint,
        api_key_pair.key_view(),
        nonce,
        timestamp,
        query,
        body,
    );
}

/// The signed URL of a call to the API under `API_BASE_URL`.
pub open spec fn api_signed_url(
    api_key_pair: ApiKeyPair,
    method: Method,
    endpoint: Seq<char>,
    query: Seq<char>,
    body: Seq<u8>,
    nonce: u128,
    timestamp: u64,
) -> Seq<char> {
    signed_call_url(
        api_key_pair,
        method,
        API_BASE_URL@,
        endpoint,
        query,
        body,
        nonce,
        timestamp,
    )
}

/// Whether a call to the API under `API_BASE_URL` fits, whatever nonce and
/// timestamp it gets.
pub open spec fn api_call_fits(
    api_key_pair: ApiKeyPair,
    endpoint: Seq<char>,
    query: Seq<char>,
    body: Seq<u8>,
) -> bool {
    call_fits_at(api_key_pair, API_BASE_URL@, endpoint, query, body)
}

/// The text of an optional string: nothing stands for the empty text.
pub open spec fn text_or_empty(text: Option<&str>) -> Seq<char> {
    match text {
        Some(t) => t@,
        None => Seq::<char>::empty(),
    }
}

/// The text of an optional string slice; nothing gives the empty string.
pub fn str_or_empty<'a>(text: Option<&'a str>) -> (t: &'a str)
    ensures
        t@ == text_or_empty(text),
{
    match text {
        Some(t) => t,
        None => {
            proof {
                reveal_strlit("");
            }
            assert(""@ =~= Seq::<char>::empty());
            ""
        },
    }
}

/// Signs a canonical URL that is already built.
pub fn sign_url_text(method: Method, url: &str, body: &[u8], secret: &str) -> (signature: String)
    requires
        signable(secret@, method, url@, body@),
    ensures
        signature@ == call_signature(secret@, method, url@, body@),
        signature@.len() == 64,
{
    let message = build_canonical_message(method, url, body);
    sign_bytes(secret.as_bytes(), message.as_slice())
}

/// Appends a signature to a canonical URL.
pub fn attach_signature(url: String, signature: &str) -> (signed: String)
    ensures
        signed@ == with_signature(url@, signature@),
        signed@.len() == url@.len() + 11 + signature@.len(),
{
    proof {
        reveal_strlit("&signature=");
    }
    let mut signed = url;
    signed.append("&signature=");
    signed.append(signature);
    signed
}

/// Signs a call: the signature that belongs to method, URL and body under
/// the secret of the key pair, for the given nonce and timestamp.
pub fn sign(
    method: Method,
    base_url: &str,
    endpoint: &str,
    query: &str,
    body: &[u8],
    api_key_pair: &ApiKeyPair,
    nonce: Nonce,
    timestamp: u64,
) -> (signature: String)
    requires
        call_signable(
            *api_key_pair,
            method,
            base_url@,
            endpoint@,
            query@,
            body@,
            nonce@,
            timestamp,
        ),
    ensures
        signature@ == call_signature(
            api_key_pair.secret_view(),
            method,
            call_url(*api_key_pair, base_url@, endpoint@, query@, nonce@, timestamp),
            body@,
        ),
        signature@.len() == 64,
{
    let url = build_canonical_url(
        base_url,
        endpoint,
        api_key_pair.api_key(),
        nonce,
        timestamp,
        query,
    );
    sign_url_text(method, url.as_str(), body, api_key_pair.api_secret())
}

/// The signed URL of a call to `endpoint` under `base_url`, for the given
/// nonce and timestamp.
pub fn signed_url_at(
    method: Method,
    base_url: &str,
    endpoint: &str,
    query: &str,
    body: &[u8],
    api_key_pair: &ApiKeyPair,
    nonce: Nonce,
    timestamp: u64,
) -> (signed: String)
    requires
        call_signable(
            *api_key_pair,
            method,
            base_url@,
            endpoint@,
            query@,
            body@,
            nonce@,
            timestamp,
        ),
    ensures
        signed@ == signed_call_url(
            *api_key_pair,
            method,
            base_url@,
            endpoint@,
            query@,
            body@,
            nonce@,
            timestamp,
        ),
        signed@.len() == call_url(
            *api_key_pair,
            base_url@,
            endpoint@,
            query@,
            nonce@,
            timestamp,
        ).len() + 75,
{
    let url = build_canonical_url(
        base_url,
        endpoint,
        api_key_pair.api_key(),
        nonce,
        timestamp,
        query,
    );
    let signature = sign_url_text(method, url.as_str(), body, api_key_pair.api_secret());
    attach_signature(url, signature.as_str())
}

/// The signed URL of a call to `endpoint` under `base_url`, with a fresh
/// nonce and the current time. Two calls with the same arguments differ in
/// the nonce.
pub fn fresh_signed_url(
    method: Method,
    base_url: &str,
    endpoint: &str,
    query: &str,
    body: &[u8],
    api_key_pair: &ApiKeyPair,
) -> (signed: String)
    requires
        call_fits_at(*api_key_pair, base_url@, endpoint@, query@, body@),
    ensures
        exists|nonce: u128, timestamp: u64|
            is_random_uuid(nonce) && signed@ == #[trigger] signed_call_url(
                *api_key_pair,
                method,
                base_url@,
                endpoint@,
                query@,
                body@,
                nonce,
                timestamp,
            ) && signed@.len() == call_url(
                *api_key_pair,
                base_url@,
                endpoint@,
                query@,
                nonce,
                timestamp,
            ).len() + 75,
{
    let nonce = nonce();
    let timestamp: u64 = now();
    proof {
        lemma_call_fits(
            *api_key_pair,
            method,
            base_url@,
            endpoint@,
            query@,
            body@,
            nonce@,
            timestamp,
        );
    }
    let signed = signed_url_at(
        method,
        base_url,
        endpoint,
        query,
        body,
        api_key_pair,
        nonce,
        timestamp,
    );
    assert(signed@ == signed_call_url(
        *api_key_pair,
        method,
        base_url@,
        endpoint@,
        query@,
        body@,
        nonce@,
        timestamp,
    ));
    signed
}

/// Tells whether a call fits, by the lengths of its parts.
pub fn call_fits(
    api_key_pair: &ApiKeyPair,
    base_url: &str,
    endpoint: &str,
    query: &str,
    body: &[u8],
) -> (fits: bool)
    ensures
        fits == call_fits_at(*api_key_pair, base_url@, endpoint@, query@, body@),
{
    let secret_len: usize = api_key_pair.api_secret().as_bytes().len();
    let base_len: usize = base_url.as_bytes().len();
    let endpoint_len: usize = endpoint.as_bytes().len();
    let key_len: usize = api_key_pair.api_key().as_bytes().len();
    let query_len: usize = query.as_bytes().len();
    let body_len: usize = body.len();
    let total: u128 = base_len as u128 + endpoint_len as u128 + key_len as u128 + query_len as u128
        + body_len as u128 + SIGNING_OVERHEAD as u128;
    (secret_len as u64) < HMAC_INPUT_LIMIT && total < HMAC_INPUT_LIMIT as u128
}

/// The signed URL of a call to the API for a given nonce and timestamp.
/// Missing parameters and a missing body count as empty.
pub fn url_with_nonce_and_timestamp(
    method: Method,
    endpoint: &str,
    parameters: Option<&str>,
    body: Option<&str>,
    api_key_pair: &ApiKeyPair,
    nonce: Nonce,
    timestamp: u64,
) -> (signed: String)
    requires
        call_signable(
            *api_key_pair,
            method,
            API_BASE_URL@,
            endpoint@,
            text_or_empty(parameters),
            encode_utf8(text_or_empty(body)),
            nonce@,
            timestamp,
        ),
    ensures
        signed@ == api_signed_url(
            *api_key_pair,
            method,
            endpoint@,
            text_or_empty(parameters),
            encode_utf8(text_or_empty(body)),
            nonce@,
            timestamp,
        ),
        signed@.len() == call_url(
            *api_key_pair,
            API_BASE_URL@,
            endpoint@,
            text_or_empty(parameters),
            nonce@,
            timestamp,
        ).len() + 75,
{
    signed_url_at(
        method,
        API_BASE_URL,
        endpoint,
        str_or_empty(parameters),
        str_or_empty(body).as_bytes(),
        api_key_pair,
        nonce,
        timestamp,
    )
}

/// The signed URL of a call to the API with a fresh nonce and the current
/// time. Two calls with the same arguments differ in the nonce.
pub fn generate_signed_url(
    method: Method,
    endpoint: &str,
    parameters: Option<&str>,
    body: Option<&str>,
    api_key_pair: &ApiKeyPair,
) -> (signed: String)
    requires
        api_call_fits(
            *api_key_pair,
            endpoint@,
            text_or_empty(parameters),
            encode_utf8(text_or_empty(body)),
        ),
    ensures
        exists|nonce: u128, timestamp: u64|
            is_random_uuid(nonce) && signed@ == #[trigger] api_signed_url(
                *api_key_pair,
                method,
                endpoint@,
                text_or_empty(parameters),
                encode_utf8(text_or_empty(body)),
                nonce,
                timestamp,
            ) && signed@.len() == call_url(
                *api_key_pair,
                API_BASE_URL@,
                endpoint@,
                text_or_empty(parameters),
                nonce,
                timestamp,
            ).len() + 75,
{
    let nonce = nonce();
    let timestamp: u64 = now();
    proof {
        lemma_call_fits(
            *api_key_pair,
            method,
            API_BASE_URL@,
            endpoint@,
            text_or_empty(parameters),
            encode_utf8(text_or_empty(body)),
            nonce@,
            timestamp,
        );
    }
    url_with_nonce_and_timestamp(
        method,
        endpoint,
        parameters,
        body,
        api_key_pair,
        nonce,
        timestamp,
    )
}

} // verus!
