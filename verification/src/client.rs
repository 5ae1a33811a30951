//! The client's state and decisions: which request a call becomes and what
//! a response means. Sending the request over the network is left to the
//! caller.

use crate::defs::AccessToken;
use crate::endpoint::Endpoint;
use crate::error::Error;
use crate::error::Kind;
use crate::error::StatusCode;
use crate::form::form_encoded;
use crate::form::lemma_form_encoded_safe;
use crate::form::push_form_encoded;
use crate::helper::is_random_uuid;
use crate::helper::Nonce;
use crate::signing::call_fits;
use crate::signing::call_fits_at;
use crate::signing::call_signable;
use crate::signing::call_url;
use crate::signing::fresh_signed_url;
use crate::signing::signed_call_url;
use crate::signing::signed_url_at;
use crate::signing::str_or_empty;
use crate::signing::text_or_empty;
use crate::signing::Method;
use crate::signing::API_BASE_URL;
use crate::text::count_of;
use crate::text::decimal;
use crate::text::lemma_count_concat;
use crate::text::lemma_count_zero;
use crate::text::decimal_string;
use hyper::http::uri::InvalidUri;
use vstd::prelude::*;
use vstd::string::*;
use vstd::utf8::decode_utf8;
use vstd::utf8::decode_utf8_encode_utf8;
use vstd::utf8::encode_utf8;
use vstd::utf8::is_ascii_chars_encode_utf8;
use vstd::utf8::valid_utf8;

verus! {

/// API key/secret pair.
///
/// The key is sent with every request; the secret never leaves the client
/// and keys the signature.
#[derive(Debug, Clone)]
pub struct ApiKeyPair {
    api_key: String,
    api_secret: String,
}

impl ApiKeyPair {
    /// Environment variable name used to get API key.
    pub const API_KEY_ENVVAR: &'static str = "LETTERBOXD_API_KEY";

    /// Environment variable name used to get API secret.
    pub const API_SECRET_ENVVAR: &'static str = "LETTERBOXD_API_SECRET";

    /// The API key as text.
    pub closed spec fn key_view(&self) -> Seq<char> {
        self.api_key@
    }

    /// The API secret as text.
    pub closed spec fn secret_view(&self) -> Seq<char> {
        self.api_secret@
    }

    /// Creates new ApiKeyPair from given key and secret.
    pub fn new(api_key: String, api_secret: String) -> (pair: Self)
        ensures
            pair.key_view() == api_key@,
            pair.secret_view() == api_secret@,
    {
        Self { api_key, api_secret }
    }

    /// Creates a pair from the values of the two environment variables, as
    /// far as they are set: `None` if either is missing.
    pub fn from_vars(api_key: Option<String>, api_secret: Option<String>) -> (pair: Option<Self>)
        ensures
            pair is Some <==> api_key is Some && api_secret is Some,
            pair matches Some(p) ==> p.key_view() == api_key->0@ && p.secret_view()
                == api_secret->0@,
    {
        match (api_key, api_secret) {
            (Some(api_key), Some(api_secret)) => Some(Self::new(api_key, api_secret)),
            _ => None,
        }
    }

    /// The API key.
    pub fn api_key(&self) -> (key: &str)
        ensures
            key@ == self.key_view(),
    {
        self.api_key.as_str()
    }

    /// The API secret.
    pub fn api_secret(&self) -> (secret: &str)
        ensures
            secret@ == self.secret_view(),
    {
        self.api_secret.as_str()
    }
}

/// One header of a request.
#[derive(Debug, Clone)]
pub struct Header {
    pub name: String,
    pub value: String,
}

impl View for Header {
    type V = (Seq<char>, Seq<char>);

    open spec fn view(&self) -> (Seq<char>, Seq<char>) {
        (self.name@, self.value@)
    }
}

/// A request that is ready to be sent: the signed URL, the headers in the
/// order in which they are set, and the body.
#[derive(Debug, Clone)]
pub struct Request {
    pub method: Method,
    pub url: String,
    pub headers: Vec<Header>,
    pub body: Vec<u8>,
}

/// What a request says, in mathematical terms.
pub struct RequestView {
    pub method: Method,
    pub url: Seq<char>,
    pub headers: Seq<(Seq<char>, Seq<char>)>,
    pub body: Seq<u8>,
}

impl View for Request {
    type V = RequestView;

    open spec fn view(&self) -> RequestView {
        RequestView {
            method: self.method,
            url: self.url@,
            headers: self.headers@.map_values(|h: Header| h@),
            body: self.body@,
        }
    }
}

/// The value of the authorization header for an access token.
pub open spec fn bearer(token: Seq<char>) -> Seq<char> {
    "Bearer "@ + token
}

/// The headers of an API call: the body is announced as JSON with its
/// length in bytes; the bearer token follows where the call carries one.
pub open spec fn call_headers(body_len: nat, token: Option<Seq<char>>) -> Seq<
    (Seq<char>, Seq<char>),
> {
    let fixed = seq![
        ("content-type"@, "application/json"@),
        ("content-length"@, decimal(body_len)),
    ];
    match token {
        Some(t) => fixed.push(("authorization"@, bearer(t))),
        None => fixed,
    }
}

/// The headers of the call that asks for an access token: a form goes out,
/// JSON is asked for, and no token is sent.
pub open spec fn auth_headers() -> Seq<(Seq<char>, Seq<char>)> {
    seq![
        ("content-type"@, "application/x-www-form-urlencoded"@),
        ("accept"@, "application/json"@),
    ]
}

/// The form that asks for an access token by user name and password:
/// the three pairs `grant_type=password`, `username=` and `password=`,
/// joined by `&`. The two values are the form encodings of their UTF-8
/// bytes, so that no value can end its pair or begin another.
pub open spec fn auth_form(username: Seq<char>, password: Seq<char>) -> Seq<u8> {
    encode_utf8("grant_type=password&username="@) + form_encoded(encode_utf8(username))
        + encode_utf8("&password="@) + form_encoded(encode_utf8(password))
}

/// The form that asks for an access token holds exactly two `&` and three
/// `=`, whatever user name and password are: it is a form of three pairs,
/// and neither value adds a key.
pub proof fn lemma_auth_form_pairs(username: Seq<char>, password: Seq<char>)
    ensures
        count_of(auth_form(username, password), 0x26u8) == 2,
        count_of(auth_form(username, password), 0x3du8) == 3,
        count_of(auth_form(username, password), 0u8) == 0,
{
    let head = encode_utf8("grant_type=password&username="@);
    let user = form_encoded(encode_utf8(username));
    let middle = encode_utf8("&password="@);
    let pass = form_encoded(encode_utf8(password));
    lemma_form_keys();
    lemma_form_encoded_safe(encode_utf8(username));
    lemma_form_encoded_safe(encode_utf8(password));
    lemma_count_concat(head, user, 0x26u8);
    lemma_count_concat(head + user, middle, 0x26u8);
    lemma_count_concat(head + user + middle, pass, 0x26u8);
    lemma_count_concat(head, user, 0x3du8);
    lemma_count_concat(head + user, middle, 0x3du8);
    lemma_count_concat(head + user + middle, pass, 0x3du8);
    lemma_count_concat(head, user, 0u8);
    lemma_count_concat(head + user, middle, 0u8);
    lemma_count_concat(head + user + middle, pass, 0u8);
}

/// The fixed parts of the form that asks for an access token: the first
/// holds one `&` and two `=`, the second one of each, and neither a NUL.
proof fn lemma_form_keys()
    ensures
        count_of(encode_utf8("grant_type=password&username="@), 0x26u8) == 1,
        count_of(encode_utf8("grant_type=password&username="@), 0x3du8) == 2,
        count_of(encode_utf8("grant_type=password&username="@), 0u8) == 0,
        count_of(encode_utf8("&password="@), 0x26u8) == 1,
        count_of(encode_utf8("&password="@), 0x3du8) == 1,
        count_of(encode_utf8("&password="@), 0u8) == 0,
{
    reveal_strlit("grant_type=password&username=");
    reveal_strlit("&password=");
    reveal_strlit("grant_type");
    reveal_strlit("password");
    reveal_strlit("username");
    let head = encode_utf8("grant_type=password&username="@);
    let middle = encode_utf8("&password="@);
    let grant = encode_utf8("grant_type"@);
    let pass = encode_utf8("password"@);
    let user = encode_utf8("username"@);
    let eq = seq![0x3du8];
    let amp = seq![0x26u8];
    is_ascii_chars_encode_utf8("grant_type=password&username="@);
    is_ascii_chars_encode_utf8("&password="@);
    is_ascii_chars_encode_utf8("grant_type"@);
    is_ascii_chars_encode_utf8("password"@);
    is_ascii_chars_encode_utf8("username"@);
    assert(head =~= grant + eq + pass + amp + user + eq);
    assert(middle =~= amp + pass + eq);
    assert(count_of(eq, 0x3du8) == 1 && count_of(eq, 0x26u8) == 0 && count_of(eq, 0u8) == 0) by {
        reveal_with_fuel(count_of, 2);
        assert(eq.drop_last() =~= Seq::<u8>::empty());
    }
    assert(count_of(amp, 0x26u8) == 1 && count_of(amp, 0x3du8) == 0 && count_of(amp, 0u8) == 0)
        by {
        reveal_with_fuel(count_of, 2);
        assert(amp.drop_last() =~= Seq::<u8>::empty());
    }
    lemma_key_plain(grant);
    lemma_key_plain(pass);
    lemma_key_plain(user);
    lemma_count_chain(grant, eq, pass, amp, user, eq, 0x26u8);
    lemma_count_chain(grant, eq, pass, amp, user, eq, 0x3du8);
    lemma_count_chain(grant, eq, pass, amp, user, eq, 0u8);
    lemma_count_concat(amp, pass, 0x26u8);
    lemma_count_concat(amp + pass, eq, 0x26u8);
    lemma_count_concat(amp, pass, 0x3du8);
    lemma_count_concat(amp + pass, eq, 0x3du8);
    lemma_count_concat(amp, pass, 0u8);
    lemma_count_concat(amp + pass, eq, 0u8);
}

/// A key made of lower-case letters and `_` holds neither `&` nor `=` nor
/// NUL.
proof fn lemma_key_plain(key: Seq<u8>)
    requires
        forall|i: int| 0 <= i < key.len() ==> 0x5f <= #[trigger] key[i] <= 0x7a,
    ensures
        count_of(key, 0x26u8) == 0,
        count_of(key, 0x3du8) == 0,
        count_of(key, 0u8) == 0,
{
    lemma_count_zero(key, 0x26u8);
    lemma_count_zero(key, 0x3du8);
    lemma_count_zero(key, 0u8);
}

/// Occurrences add up over six pieces.
proof fn lemma_count_chain(
    a: Seq<u8>,
    b: Seq<u8>,
    c: Seq<u8>,
    d: Seq<u8>,
    e: Seq<u8>,
    f: Seq<u8>,
    x: u8,
)
    ensures
        count_of(a + b + c + d + e + f, x) == count_of(a, x) + count_of(b, x) + count_of(c, x)
            + count_of(d, x) + count_of(e, x) + count_of(f, x),
{
    lemma_count_concat(a, b, x);
    lemma_count_concat(a + b, c, x);
    lemma_count_concat(a + b + c, d, x);
    lemma_count_concat(a + b + c + d, e, x);
    lemma_count_concat(a + b + c + d + e, f, x);
}

/// Whether `hyper::Uri` takes a text as a URI.
pub uninterp spec fn uri_accepts(text: Seq<char>) -> bool;

/// Trusted: the `FromStr` of `hyper::Uri`, reached through `str::parse`.
/// Whether it takes a text depends on the text alone. The URI itself is
/// dropped; the reason of a refusal is handed on.
#[verifier::external_body]
fn check_uri(text: &str) -> (checked: Result<(), InvalidUri>)
    ensures
        checked is Ok == uri_accepts(text@),
{
    match text.parse::<hyper::Uri>() {
        Ok(_) => Ok(()),
        Err(err) => Err(err),
    }
}

/// The text that lossy UTF-8 decoding makes of a byte string: each stretch
/// that is no UTF-8 gives a replacement character.
pub uninterp spec fn lossy_text(bytes: Seq<u8>) -> Seq<char>;

/// Trusted: `String::from_utf8_lossy`. The text depends on the bytes alone,
/// and valid UTF-8 is decoded as it stands.
#[verifier::external_body]
fn decode_lossy(bytes: &[u8]) -> (text: String)
    ensures
        text@ == lossy_text(bytes@),
        valid_utf8(bytes@) ==> text@ == decode_utf8(bytes@),
{
    String::from_utf8_lossy(bytes).into_owned()
}

/// The path of the call that asks for an access token.
pub const AUTH_TOKEN_PATH: &'static str = "auth/token";

/// The request that an API call becomes for a given nonce and timestamp.
pub open spec fn planned_call(
    client: Client,
    method: Method,
    endpoint: Seq<char>,
    query: Seq<char>,
    body: Seq<u8>,
    requires_auth: bool,
    nonce: u128,
    timestamp: u64,
) -> RequestView {
    RequestView {
        method,
        url: signed_call_url(
            client.key_pair_view(),
            method,
            client.base_url_view(),
            endpoint,
            query,
            body,
            nonce,
            timestamp,
        ),
        headers: call_headers(body.len(), client.authorization(requires_auth)),
        body,
    }
}

/// The request that asks for an access token, for a given nonce and
/// timestamp: the form is the body, and it is signed as the body.
pub open spec fn planned_token_call(
    api_key_pair: ApiKeyPair,
    base_url: Seq<char>,
    username: Seq<char>,
    password: Seq<char>,
    nonce: u128,
    timestamp: u64,
) -> RequestView {
    let body = auth_form(username, password);
    RequestView {
        method: Method::Post,
        url: signed_call_url(
            api_key_pair,
            Method::Post,
            base_url,
            AUTH_TOKEN_PATH@,
            Seq::<char>::empty(),
            body,
            nonce,
            timestamp,
        ),
        headers: auth_headers(),
        body,
    }
}

/// What preparing a call may come to: the planned request where its URL is
/// a URI, and else the reason why it is none, with no URL attached.
pub open spec fn prepared(planned: RequestView, outcome: Result<Request, Error>) -> bool {
    &&& outcome is Ok <==> uri_accepts(planned.url)
    &&& outcome matches Ok(request) ==> request@ == planned
    &&& outcome matches Err(error) ==> error.kind_view() is Uri && error.url_view() is None
}

/// Whether the URL of a prepared request has the length of a signed URL:
/// that of the canonical URL, and 75 more for `&signature=` and the 64
/// digits of the signature.
pub open spec fn url_is_signed(outcome: Result<Request, Error>, canonical: Seq<char>) -> bool {
    outcome matches Ok(request) ==> request.url@.len() == canonical.len() + 75
}

/// What a response comes to: its body where the status reports success, and
/// else a server error with the status, the body as text and the URL of the
/// request.
pub open spec fn received(
    status: StatusCode,
    bytes: Seq<u8>,
    url: Seq<char>,
    outcome: Result<Vec<u8>, Error>,
) -> bool {
    &&& outcome is Ok <==> status.success()
    &&& outcome matches Ok(body) ==> body@ == bytes
    &&& outcome matches Err(error) ==> {
        &&& error.kind_view() matches Kind::ServerError(s, text)
        &&& s == status
        &&& text@ == lossy_text(bytes)
        &&& valid_utf8(bytes) ==> text@ == decode_utf8(bytes)
        &&& error.url_view() == Some(url)
    }
}

/// A status outside the success range always gives a server error with
/// that status, and a body that is UTF-8 is carried byte for byte; a status
/// inside the range never gives an error.
pub proof fn lemma_status_mapping(
    status: StatusCode,
    bytes: Seq<u8>,
    url: Seq<char>,
    outcome: Result<Vec<u8>, Error>,
)
    requires
        received(status, bytes, url, outcome),
    ensures
        200 <= status@ <= 299 ==> outcome is Ok && outcome->Ok_0@ == bytes,
        !(200 <= status@ <= 299) ==> {
            &&& outcome matches Err(error)
            &&& error.kind_view() matches Kind::ServerError(s, text)
            &&& s@ == status@
            &&& valid_utf8(bytes) ==> encode_utf8(text@) == bytes
        },
{
    if valid_utf8(bytes) {
        decode_utf8_encode_utf8(bytes);
    }
}

/// A client that holds a token sends it, as it is, on every call that
/// requires authentication, and on no other call.
pub proof fn lemma_token_propagation(
    client: Client,
    token: AccessToken,
    method: Method,
    endpoint: Seq<char>,
    query: Seq<char>,
    body: Seq<u8>,
    nonce: u128,
    timestamp: u64,
)
    requires
        client.token_view() == Some(token),
    ensures
        planned_call(client, method, endpoint, query, body, true, nonce, timestamp).headers.last()
            == ("authorization"@, "Bearer "@ + token.access_token@),
        !has_header(
            planned_call(client, method, endpoint, query, body, false, nonce, timestamp).headers,
            "authorization"@,
        ),
{
    lemma_fixed_headers(body.len());
}

/// A client that holds no token sends no authorization header, whatever the
/// call requires.
pub proof fn lemma_no_token_no_header(
    client: Client,
    method: Method,
    endpoint: Seq<char>,
    query: Seq<char>,
    body: Seq<u8>,
    requires_auth: bool,
    nonce: u128,
    timestamp: u64,
)
    requires
        client.token_view() is None,
    ensures
        !has_header(
            planned_call(
                client,
                method,
                endpoint,
                query,
                body,
                requires_auth,
                nonce,
                timestamp,
            ).headers,
            "authorization"@,
        ),
{
    lemma_fixed_headers(body.len());
}

/// A call that reads carries no token, whether or not the client holds
/// one.
pub proof fn lemma_reading_sends_no_token(
    client: Client,
    endpoint: Endpoint,
    path: Seq<char>,
    query: Seq<char>,
    body: Seq<u8>,
    nonce: u128,
    timestamp: u64,
)
    requires
        endpoint.is_call(Method::Get, path),
    ensures
        !has_header(
            planned_call(
                client,
                endpoint.method,
                endpoint.path@,
                query,
                body,
                endpoint.requires_auth,
                nonce,
                timestamp,
            ).headers,
            "authorization"@,
        ),
{
    lemma_fixed_headers(body.len());
}

/// Whether a header of the given name is among the headers.
pub open spec fn has_header(headers: Seq<(Seq<char>, Seq<char>)>, name: Seq<char>) -> bool {
    exists|i: int| 0 <= i < headers.len() && (#[trigger] headers[i]).0 == name
}

/// The two headers that every call has are not the authorization header.
proof fn lemma_fixed_headers(body_len: nat)
    ensures
        !has_header(call_headers(body_len, None), "authorization"@),
{
    reveal_strlit("content-type");
    reveal_strlit("content-length");
    reveal_strlit("authorization");
    let headers = call_headers(body_len, None);
    assert(headers.len() == 2);
    assert(headers[0].0.len() == 12);
    assert(headers[1].0.len() == 14);
    assert("authorization"@.len() == 13);
}

/// A header with the given name.
fn header(name: &str, value: String) -> (h: Header)
    ensures
        h@ == (name@, value@),
{
    Header { name: String::from_str(name), value }
}

/// The request with the given parts where the URL has passed the check, and
/// else the reason of the refusal as an error.
pub fn checked_request(
    method: Method,
    url: String,
    headers: Vec<Header>,
    body: Vec<u8>,
    checked: Result<(), InvalidUri>,
) -> (outcome: Result<Request, Error>)
    ensures
        outcome is Ok <==> checked is Ok,
        outcome matches Ok(request) ==> request.method == method && request.url == url
            && request.headers == headers && request.body == body,
        outcome matches Err(error) ==> checked matches Err(reason) && error.kind_view()
            == Kind::Uri(reason) && error.url_view() is None,
{
    match checked {
        Ok(_) => Ok(Request { method, url, headers, body }),
        Err(reason) => Err(Error::from(reason)),
    }
}

/// The bytes of the form that asks for an access token.
pub fn auth_form_bytes(username: &str, password: &str) -> (form: Vec<u8>)
    ensures
        form@ == auth_form(username@, password@),
{
    let mut form: Vec<u8> = Vec::new();
    form.extend_from_slice("grant_type=password&username=".as_bytes());
    push_form_encoded(&mut form, username.as_bytes());
    form.extend_from_slice("&password=".as_bytes());
    push_form_encoded(&mut form, password.as_bytes());
    assert(form@ =~= auth_form(username@, password@));
    form
}

/// Interprets a response: hands on the body of a success, and reports every
/// other status as a server error that carries the status, the body as
/// text, and the URL that was asked.
pub fn read_response(status: StatusCode, bytes: Vec<u8>, url: &str) -> (outcome: Result<
    Vec<u8>,
    Error,
>)
    ensures
        received(status, bytes@, url@, outcome),
{
    if status.is_success() {
        Ok(bytes)
    } else {
        let content = decode_lossy(bytes.as_slice());
        Err(Error::server_error(status, content, String::from_str(url)))
    }
}

/// Letterboxd client state.
///
/// A client is created from an API key pair, and either
///
/// * with a token (API calls that require it will be authenticated), or
/// * without a token (no API call will be authenticated; calls that require
///   authentication will be refused by the server).
///
/// It calls the API at `API_BASE_URL` unless it is given another address.
#[derive(Debug, Clone)]
pub struct Client {
    api_key_pair: ApiKeyPair,
    token: Option<AccessToken>,
    base_url: String,
}

impl Client {
    /// The key pair that the client signs with.
    pub closed spec fn key_pair_view(&self) -> ApiKeyPair {
        self.api_key_pair
    }

    /// The token that the client holds, if any.
    pub closed spec fn token_view(&self) -> Option<AccessToken> {
        self.token
    }

    /// The address under which the client calls the API.
    pub closed spec fn base_url_view(&self) -> Seq<char> {
        self.base_url@
    }

    /// The access token that goes out with a call: the one the client
    /// holds, and only where the call requires authentication.
    pub open spec fn authorization(&self, requires_auth: bool) -> Option<Seq<char>> {
        match self.token_view() {
            Some(token) if requires_auth => Some(token.access_token@),
            _ => None,
        }
    }

    /// Whether a call of this client fits, whatever nonce and timestamp it
    /// gets.
    pub open spec fn fits(&self, endpoint: Seq<char>, query: Seq<char>, body: Seq<u8>) -> bool {
        call_fits_at(self.key_pair_view(), self.base_url_view(), endpoint, query, body)
    }

    /// Creates a new client without authentication.
    pub fn new(api_key_pair: ApiKeyPair) -> (client: Self)
        ensures
            client.key_pair_view() == api_key_pair,
            client.token_view() is None,
            client.base_url_view() == API_BASE_URL@,
    {
        Self { api_key_pair, token: None, base_url: String::from_str(API_BASE_URL) }
    }

    /// Creates a new client from a given token.
    ///
    /// It is not checked that the token is valid.
    pub fn with_token(api_key_pair: ApiKeyPair, token: AccessToken) -> (client: Self)
        ensures
            client.key_pair_view() == api_key_pair,
            client.token_view() == Some(token),
            client.base_url_view() == API_BASE_URL@,
    {
        Self { api_key_pair, token: Some(token), base_url: String::from_str(API_BASE_URL) }
    }

    /// The same client calling the API at another address, such as that of
    /// a test server. Endpoint paths are appended to the address as it is.
    pub fn at(self, base_url: String) -> (client: Self)
        ensures
            client.key_pair_view() == self.key_pair_view(),
            client.token_view() == self.token_view(),
            client.base_url_view() == base_url@,
    {
        Self { api_key_pair: self.api_key_pair, token: self.token, base_url }
    }

    /// Returns if the client has a token.
    ///
    /// This method does *not* check that the token is valid.
    pub fn is_authenticated(&self) -> (authenticated: bool)
        ensures
            authenticated == self.token_view() is Some,
    {
        self.token.is_some()
    }

    /// Returns the token used for authentication.
    pub fn token(&self) -> (token: Option<&AccessToken>)
        ensures
            token is Some <==> self.token_view() is Some,
            token matches Some(t) ==> self.token_view() == Some(*t),
    {
        self.token.as_ref()
    }

    /// Sets a new token which will be used for authentication.
    ///
    /// Setting `None` disables authentication.
    pub fn set_token(&mut self, token: Option<AccessToken>)
        ensures
            final(self).token_view() == token,
            final(self).key_pair_view() == old(self).key_pair_view(),
            final(self).base_url_view() == old(self).base_url_view(),
    {
        self.token = token;
    }

    /// The key pair that the client signs with.
    pub fn api_key_pair(&self) -> (pair: &ApiKeyPair)
        ensures
            *pair == self.key_pair_view(),
    {
        &self.api_key_pair
    }

    /// The address under which the client calls the API.
    pub fn base_url(&self) -> (base_url: &str)
        ensures
            base_url@ == self.base_url_view(),
    {
        self.base_url.as_str()
    }

    /// Tells whether a call of this client fits, by the lengths of its
    /// parts. A missing query counts as empty.
    pub fn call_fits(&self, endpoint_path: &str, query: Option<&str>, body: &[u8]) -> (fits: bool)
        ensures
            fits == self.fits(endpoint_path@, text_or_empty(query), body@),
    {
        call_fits(
            &self.api_key_pair,
            self.base_url.as_str(),
            endpoint_path,
            str_or_empty(query),
            body,
        )
    }

    /// The headers of a call with a body of the given length.
    pub fn headers(&self, body_len: usize, requires_auth: bool) -> (headers: Vec<Header>)
        ensures
            headers@.map_values(|h: Header| h@) == call_headers(
                body_len as nat,
                self.authorization(requires_auth),
            ),
    {
        let mut headers: Vec<Header> = Vec::new();
        headers.push(header("content-type", String::from_str("application/json")));
        headers.push(header("content-length", decimal_string(body_len as u64)));
        if requires_auth {
            if let Some(token) = &self.token {
                let mut value = String::from_str("Bearer ");
                value.append(token.access_token.as_str());
                headers.push(header("authorization", value));
            }
        }
        assert(headers@.map_values(|h: Header| h@) =~= call_headers(
            body_len as nat,
            self.authorization(requires_auth),
        ));
        headers
    }

    /// Signs the URL of a call with a fresh nonce and the current time.
    ///
    /// The API key, the nonce, the timestamp and the signature are added to
    /// the URL's query. Two calls with the same arguments differ in the
    /// nonce.
    pub fn sign_url(
        &self,
        method: Method,
        endpoint_path: &str,
        query: Option<&str>,
        body: &[u8],
    ) -> (signed: String)
        requires
            self.fits(endpoint_path@, text_or_empty(query), body@),
        ensures
            exists|nonce: u128, timestamp: u64|
                is_random_uuid(nonce) && signed@ == #[trigger] signed_call_url(
                    self.key_pair_view(),
                    method,
                    self.base_url_view(),
                    endpoint_path@,
                    text_or_empty(query),
                    body@,
                    nonce,
                    timestamp,
                ) && signed@.len() == call_url(
                    self.key_pair_view(),
                    self.base_url_view(),
                    endpoint_path@,
                    text_or_empty(query),
                    nonce,
                    timestamp,
                ).len() + 75,
    {
        fresh_signed_url(
            method,
            self.base_url.as_str(),
            endpoint_path,
            str_or_empty(query),
            body,
            &self.api_key_pair,
        )
    }

    /// Makes the request of a call out of its signed URL: sets the headers
    /// and checks that the URL is a URI.
    pub fn request_for(
        &self,
        method: Method,
        signed_url: String,
        body: Vec<u8>,
        requires_auth: bool,
    ) -> (outcome: Result<Request, Error>)
        ensures
            prepared(
                RequestView {
                    method,
                    url: signed_url@,
                    headers: call_headers(body@.len(), self.authorization(requires_auth)),
                    body: body@,
                },
                outcome,
            ),
    {
        let headers = self.headers(body.len(), requires_auth);
        let checked = check_uri(signed_url.as_str());
        checked_request(method, signed_url, headers, body, checked)
    }

    /// Prepares an API call for a given nonce and timestamp: signs its URL,
    /// sets its headers, and checks that the signed URL is a URI. Nothing is
    /// sent. A missing query counts as empty.
    pub fn prepare_at(
        &self,
        method: Method,
        endpoint_path: &str,
        query: Option<&str>,
        body: Vec<u8>,
        requires_auth: bool,
        nonce: Nonce,
        timestamp: u64,
    ) -> (outcome: Result<Request, Error>)
        requires
            call_signable(
                self.key_pair_view(),
                method,
                self.base_url_view(),
                endpoint_path@,
                text_or_empty(query),
                body@,
                nonce@,
                timestamp,
            ),
        ensures
            prepared(
                planned_call(
                    *self,
                    method,
                    endpoint_path@,
                    text_or_empty(query),
                    body@,
                    requires_auth,
                    nonce@,
                    timestamp,
                ),
                outcome,
            ),
            url_is_signed(
                outcome,
                call_url(
                    self.key_pair_view(),
                    self.base_url_view(),
                    endpoint_path@,
                    text_or_empty(query),
                    nonce@,
                    timestamp,
                ),
            ),
    {
        let url = signed_url_at(
            method,
            self.base_url.as_str(),
            endpoint_path,
            str_or_empty(query),
            body.as_slice(),
            &self.api_key_pair,
            nonce,
            timestamp,
        );
        self.request_for(method, url, body, requires_auth)
    }

    /// Prepares an API call with a fresh nonce and the current time.
    pub fn prepare(
        &self,
        method: Method,
        endpoint_path: &str,
        query: Option<&str>,
        body: Vec<u8>,
        requires_auth: bool,
    ) -> (outcome: Result<Request, Error>)
        requires
            self.fits(endpoint_path@, text_or_empty(query), body@),
        ensures
            exists|nonce: u128, timestamp: u64|
                is_random_uuid(nonce) && prepared(
                    #[trigger] planned_call(
                        *self,
                        method,
                        endpoint_path@,
                        text_or_empty(query),
                        body@,
                        requires_auth,
                        nonce,
                        timestamp,
                    ),
                    outcome,
                ) && url_is_signed(
                    outcome,
                    call_url(
                        self.key_pair_view(),
                        self.base_url_view(),
                        endpoint_path@,
                        text_or_empty(query),
                        nonce,
                        timestamp,
                    ),
                ),
    {
        let url = self.sign_url(method, endpoint_path, query, body.as_slice());
        proof {
            let (nonce, timestamp) = choose|nonce: u128, timestamp: u64|
                is_random_uuid(nonce) && url@ == #[trigger] signed_call_url(
                    self.key_pair_view(),
                    method,
                    self.base_url_view(),
                    endpoint_path@,
                    text_or_empty(query),
                    body@,
                    nonce,
                    timestamp,
                ) && url@.len() == call_url(
                    self.key_pair_view(),
                    self.base_url_view(),
                    endpoint_path@,
                    text_or_empty(query),
                    nonce,
                    timestamp,
                ).len() + 75;
            assert(planned_call(
                *self,
                method,
                endpoint_path@,
                text_or_empty(query),
                body@,
                requires_auth,
                nonce,
                timestamp,
            ).url == url@);
        }
        self.request_for(method, url, body, requires_auth)
    }

    /// Prepares a call of the API with a fresh nonce and the current time.
    pub fn prepare_call(&self, endpoint: &Endpoint, query: Option<&str>, body: Vec<u8>) -> (outcome:
        Result<Request, Error>)
        requires
            self.fits(endpoint.path@, text_or_empty(query), body@),
        ensures
            exists|nonce: u128, timestamp: u64|
                is_random_uuid(nonce) && prepared(
                    #[trigger] planned_call(
                        *self,
                        endpoint.method,
                        endpoint.path@,
                        text_or_empty(query),
                        body@,
                        endpoint.requires_auth,
                        nonce,
                        timestamp,
                    ),
                    outcome,
                ) && url_is_signed(
                    outcome,
                    call_url(
                        self.key_pair_view(),
                        self.base_url_view(),
                        endpoint.path@,
                        text_or_empty(query),
                        nonce,
                        timestamp,
                    ),
                ),
    {
        self.prepare(endpoint.method, endpoint.path.as_str(), query, body, endpoint.requires_auth)
    }

    /// Prepares the call that asks for an access token by user name and
    /// password, for a given nonce and timestamp.
    pub fn token_request_at(
        api_key_pair: &ApiKeyPair,
        base_url: &str,
        username: &str,
        password: &str,
        nonce: Nonce,
        timestamp: u64,
    ) -> (outcome: Result<Request, Error>)
        requires
            call_signable(
                *api_key_pair,
                Method::Post,
                base_url@,
                AUTH_TOKEN_PATH@,
                Seq::<char>::empty(),
                auth_form(username@, password@),
                nonce@,
                timestamp,
            ),
        ensures
            prepared(
                planned_token_call(
                    *api_key_pair,
                    base_url@,
                    username@,
                    password@,
                    nonce@,
                    timestamp,
                ),
                outcome,
            ),
            url_is_signed(
                outcome,
                call_url(
                    *api_key_pair,
                    base_url@,
                    AUTH_TOKEN_PATH@,
                    Seq::<char>::empty(),
                    nonce@,
                    timestamp,
                ),
            ),
    {
        let body = auth_form_bytes(username, password);
        let url = signed_url_at(
            Method::Post,
            base_url,
            AUTH_TOKEN_PATH,
            str_or_empty(None),
            body.as_slice(),
            api_key_pair,
            nonce,
            timestamp,
        );
        token_request_for(url, body)
    }

    /// Prepares the call that asks for an access token, with a fresh nonce
    /// and the current time.
    pub fn token_request(
        api_key_pair: &ApiKeyPair,
        base_url: &str,
        username: &str,
        password: &str,
    ) -> (outcome: Result<Request, Error>)
        requires
            call_fits_at(
                *api_key_pair,
                base_url@,
                AUTH_TOKEN_PATH@,
                Seq::<char>::empty(),
                auth_form(username@, password@),
            ),
        ensures
            exists|nonce: u128, timestamp: u64|
                is_random_uuid(nonce) && prepared(
                    #[trigger] planned_token_call(
                        *api_key_pair,
                        base_url@,
                        username@,
                        password@,
                        nonce,
                        timestamp,
                    ),
                    outcome,
                ) && url_is_signed(
                    outcome,
                    call_url(
                        *api_key_pair,
                        base_url@,
                        AUTH_TOKEN_PATH@,
                        Seq::<char>::empty(),
                        nonce,
                        timestamp,
                    ),
                ),
    {
        let body = auth_form_bytes(username, password);
        let url = fresh_signed_url(
            Method::Post,
            base_url,
            AUTH_TOKEN_PATH,
            str_or_empty(None),
            body.as_slice(),
            api_key_pair,
        );
        proof {
            let (nonce, timestamp) = choose|nonce: u128, timestamp: u64|
                is_random_uuid(nonce) && url@ == #[trigger] signed_call_url(
                    *api_key_pair,
                    Method::Post,
                    base_url@,
                    AUTH_TOKEN_PATH@,
                    Seq::<char>::empty(),
                    body@,
                    nonce,
                    timestamp,
                ) && url@.len() == call_url(
                    *api_key_pair,
                    base_url@,
                    AUTH_TOKEN_PATH@,
                    Seq::<char>::empty(),
                    nonce,
                    timestamp,
                ).len() + 75;
            assert(planned_token_call(
                *api_key_pair,
                base_url@,
                username@,
                password@,
                nonce,
                timestamp,
            ).url == url@);
        }
        token_request_for(url, body)
    }

    /// Tells whether the call that asks for an access token fits, by the
    /// lengths of its parts.
    pub fn token_request_fits(
        api_key_pair: &ApiKeyPair,
        base_url: &str,
        username: &str,
        password: &str,
    ) -> (fits: bool)
        ensures
            fits == call_fits_at(
                *api_key_pair,
                base_url@,
                AUTH_TOKEN_PATH@,
                Seq::<char>::empty(),
                auth_form(username@, password@),
            ),
    {
        let form = auth_form_bytes(username, password);
        call_fits(api_key_pair, base_url, AUTH_TOKEN_PATH, str_or_empty(None), form.as_slice())
    }
}

/// Makes the request for an access token out of its signed URL and its
/// form: sets the headers and checks that the URL is a URI.
pub fn token_request_for(signed_url: String, body: Vec<u8>) -> (outcome: Result<Request, Error>)
    ensures
        prepared(
            RequestView {
                method: Method::Post,
                url: signed_url@,
                headers: auth_headers(),
                body: body@,
            },
            outcome,
        ),
{
    let mut headers: Vec<Header> = Vec::new();
    headers.push(header("content-type", String::from_str("application/x-www-form-urlencoded")));
    headers.push(header("accept", String::from_str("application/json")));
    assert(headers@.map_values(|h: Header| h@) =~= auth_headers());
    let checked = check_uri(signed_url.as_str());
    checked_request(Method::Post, signed_url, headers, body, checked)
}

} // verus!
