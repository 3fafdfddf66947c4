//! The client's state and everything it computes before a request leaves:
//! credentials, URLs, the session checksum and each API call's request.

use super::config::{CacheConfig, KiteConnectConfig, RetryConfig, DEFAULT_BASE_URL};
use super::request::{
    clone_opt_params, no_params, opt_params_view, params_view, push_param, ApiRequest, ParamsView,
};
use crate::model::user::{authorization_header_for, authorization_value};
use crate::text::{owned, string_views};
use sha2::{Digest, Sha256};
use vstd::prelude::*;
use vstd::utf8::encode_utf8;

verus! {

/// SHA-256 digest of a byte string, as `sha2::Sha256` computes it.
pub uninterp spec fn sha256_of(data: Seq<u8>) -> Seq<u8>;

/// Calls `sha2::Sha256` (`new`, `update`, `finalize`) on `data`: the result is
/// the name `sha256_of` of the input, and, as the hasher's output size is 32
/// bytes, 32 bytes long.
#[verifier::external_body]
fn sha256_digest(data: &[u8]) -> (r: Vec<u8>)
    ensures
        r@ == sha256_of(data@),
        r@.len() == 32,
{
    let mut hasher = Sha256::new();
    hasher.update(data);
    hasher.finalize().to_vec()
}

/// Lowercase hexadecimal digit of a number below sixteen.
pub open spec fn hex_digit(d: nat) -> char {
    if d < 10 {
        crate::text::digit_char(d)
    } else if d == 10 {
        'a'
    } else if d == 11 {
        'b'
    } else if d == 12 {
        'c'
    } else if d == 13 {
        'd'
    } else if d == 14 {
        'e'
    } else {
        'f'
    }
}

/// Lowercase hexadecimal text of a byte string: two digits per byte, the
/// high half first.
pub open spec fn hex_lower(bytes: Seq<u8>) -> Seq<char>
    decreases bytes.len(),
{
    if bytes.len() == 0 {
        Seq::empty()
    } else {
        hex_lower(bytes.drop_last()) + seq![
            hex_digit((bytes.last() / 16) as nat),
            hex_digit((bytes.last() % 16) as nat),
        ]
    }
}

/// Calls `hex::encode`, which writes each byte as two lowercase hexadecimal
/// digits, high half first (its table is `"0123456789abcdef"`).
#[verifier::external_body]
fn hex_encode(data: &[u8]) -> (s: String)
    ensures
        s@ == hex_lower(data@),
{
    hex::encode(data)
}

/// Hexadecimal text has two characters per byte.
pub proof fn lemma_hex_lower_len(bytes: Seq<u8>)
    ensures
        hex_lower(bytes).len() == 2 * bytes.len(),
    decreases bytes.len(),
{
    if bytes.len() > 0 {
        lemma_hex_lower_len(bytes.drop_last());
    }
}

/// Checksum of a login step: lowercase hex of the SHA-256 of the UTF-8
/// bytes of the API key, the token and the API secret written one after
/// another.
pub open spec fn session_checksum(api_key: Seq<char>, token: Seq<char>, api_secret: Seq<char>) -> Seq<char> {
    hex_lower(sha256_of(encode_utf8(api_key + token + api_secret)))
}

/// The text of the URL that `reqwest::Url::parse` makes of a string, if it
/// parses.
pub uninterp spec fn url_text(base: Seq<char>) -> Option<Seq<char>>;

/// The text of the URL that `reqwest::Url::parse` makes of a string with the
/// given pairs appended to its query, if it parses.
pub uninterp spec fn url_text_with_query(base: Seq<char>, query: ParamsView) -> Option<Seq<char>>;

/// Calls `reqwest::Url::parse` and writes the parsed URL back as text.
#[verifier::external_body]
fn parse_url(base: &str) -> (r: Option<String>)
    ensures
        match r {
            Some(u) => url_text(base@) == Some(u@),
            None => url_text(base@) is None,
        },
{
    match reqwest::Url::parse(base) {
        Ok(u) => Some(u.to_string()),
        Err(_) => None,
    }
}

/// Calls `reqwest::Url::parse`, appends the pairs through
/// `query_pairs_mut().extend_pairs` and writes the URL back as text.
#[verifier::external_body]
fn parse_url_with_query(base: &str, query: &Vec<(String, String)>) -> (r: Option<String>)
    ensures
        match r {
            Some(u) => url_text_with_query(base@, params_view(query@)) == Some(u@),
            None => url_text_with_query(base@, params_view(query@)) is None,
        },
{
    match reqwest::Url::parse(base) {
        Ok(mut u) => {
            u.query_pairs_mut().extend_pairs(query.iter());
            Some(u.to_string())
        },
        Err(_) => None,
    }
}

/// The URL text of a path under a root, with query parameters if any: the
/// path's first character (its `/`) is replaced by the root and a `/`.
pub open spec fn full_url(root: Seq<char>, path: Seq<char>, query: Option<ParamsView>) -> Option<
    Seq<char>,
> {
    let base = root + "/"@ + path.skip(1);
    match query {
        Some(q) => url_text_with_query(base, q),
        None => url_text(base),
    }
}

/// Whether a path can be cut after its first character: it has one, and it
/// is a one-byte (ASCII) character.
pub open spec fn path_cuttable(path: Seq<char>) -> bool {
    path.len() >= 1 && (path[0] as u32) < 0x80
}

/// The login page of the KiteConnect web flow for an API key.
pub open spec fn login_url_of(api_key: Seq<char>) -> Seq<char> {
    "https://kite.trade/connect/login?api_key="@ + api_key + "&v3"@
}

/// The state of a KiteConnect client: credentials and settings.
#[derive(Debug, Clone)]
pub struct KiteConnect {
    /// API key.
    pub api_key: String,
    /// Access token of the session; empty before login.
    pub access_token: String,
    /// Root URL of the API.
    pub root: String,
    /// Request timeout in seconds.
    pub timeout: u64,
    /// How failed requests are retried.
    pub retry_config: RetryConfig,
    /// How responses are cached.
    pub cache_config: Option<CacheConfig>,
    /// Whether requests are rate limited.
    pub enable_rate_limiting: bool,
}

impl Default for KiteConnect {
    /// A client with placeholder credentials and default settings.
    fn default() -> (k: Self)
        ensures
            k.api_key@ == "<API-KEY>"@,
            k.access_token@ == "<ACCESS-TOKEN>"@,
            k.root@ == DEFAULT_BASE_URL@,
            k.timeout == 30,
            k.retry_config.max_retries == 3,
            k.retry_config.base_delay_ms == 200,
            k.retry_config.max_delay_ms == 5000,
            k.retry_config.exponential_backoff,
            k.cache_config matches Some(c) && c.enable_instruments_cache && c.cache_ttl_minutes
                == 60 && c.max_cache_size == 1000,
            k.enable_rate_limiting,
    {
        KiteConnect::new("<API-KEY>", "<ACCESS-TOKEN>")
    }
}

impl KiteConnect {
    /// A client for an API key and an access token (empty before login),
    /// talking to the production API with default settings.
    pub fn new(api_key: &str, access_token: &str) -> (k: Self)
        ensures
            k.api_key@ == api_key@,
            k.access_token@ == access_token@,
            k.root@ == DEFAULT_BASE_URL@,
            k.timeout == 30,
            k.retry_config.max_retries == 3,
            k.retry_config.base_delay_ms == 200,
            k.retry_config.max_delay_ms == 5000,
            k.retry_config.exponential_backoff,
            k.cache_config matches Some(c) && c.enable_instruments_cache && c.cache_ttl_minutes
                == 60 && c.max_cache_size == 1000,
            k.enable_rate_limiting,
    {
        KiteConnect {
            api_key: owned(api_key),
            access_token: owned(access_token),
            root: owned(DEFAULT_BASE_URL),
            timeout: 30,
            retry_config: RetryConfig::default(),
            cache_config: Some(CacheConfig::default()),
            enable_rate_limiting: true,
        }
    }

    /// A client for an API key with the given settings and no access token.
    pub fn new_with_config(api_key: &str, config: KiteConnectConfig) -> (k: Self)
        ensures
            k.api_key@ == api_key@,
            k.access_token@ == Seq::<char>::empty(),
            k.root == config.base_url,
            k.timeout == config.timeout,
            k.retry_config == config.retry_config,
            k.cache_config == config.cache_config,
            k.enable_rate_limiting == config.enable_rate_limiting,
    {
        KiteConnect {
            api_key: owned(api_key),
            access_token: String::new(),
            root: config.base_url,
            timeout: config.timeout,
            retry_config: config.retry_config,
            cache_config: config.cache_config,
            enable_rate_limiting: config.enable_rate_limiting,
        }
    }

    /// Sets the access token sent with later requests.
    pub fn set_access_token(&mut self, access_token: &str)
        ensures
            final(self).access_token@ == access_token@,
            final(self).api_key == old(self).api_key,
            final(self).root == old(self).root,
            final(self).timeout == old(self).timeout,
            final(self).retry_config == old(self).retry_config,
            final(self).cache_config == old(self).cache_config,
            final(self).enable_rate_limiting == old(self).enable_rate_limiting,
    {
        self.access_token = owned(access_token);
    }

    /// The access token sent with requests.
    pub fn access_token(&self) -> (s: &str)
        ensures
            s@ == self.access_token@,
    {
        self.access_token.as_str()
    }

    /// The login page to send the user to.
    pub fn login_url(&self) -> (s: String)
        ensures
            s@ == login_url_of(self.api_key@),
    {
        let mut s = owned("https://kite.trade/connect/login?api_key=");
        s.append(self.api_key.as_str());
        s.append("&v3");
        s
    }

    /// The `Authorization` header value sent with every request.
    pub fn authorization_header(&self) -> (s: String)
        ensures
            s@ == authorization_value(self.api_key@, self.access_token@),
    {
        authorization_header_for(self.api_key.as_str(), self.access_token.as_str())
    }

    /// The headers sent with every request: the API version, the
    /// authorization and the user agent.
    pub fn request_headers(&self) -> (h: Vec<(String, String)>)
        ensures
            params_view(h@) == seq![
                ("XKiteVersion"@, "3"@),
                ("Authorization"@, authorization_value(self.api_key@, self.access_token@)),
                ("User-Agent"@, "Rust"@),
            ],
    {
        let mut h = no_params();
        push_param(&mut h, "XKiteVersion", "3");
        let auth = self.authorization_header();
        push_param(&mut h, "Authorization", auth.as_str());
        push_param(&mut h, "User-Agent", "Rust");
        assert(params_view(h@) =~= seq![
            ("XKiteVersion"@, "3"@),
            ("Authorization"@, authorization_value(self.api_key@, self.access_token@)),
            ("User-Agent"@, "Rust"@),
        ]);
        h
    }

    /// Lowercase hex SHA-256 of the UTF-8 bytes of `input`; 64 characters.
    pub fn compute_checksum(&self, input: &str) -> (s: String)
        ensures
            s@ == hex_lower(sha256_of(encode_utf8(input@))),
            s@.len() == 64,
    {
        let digest = sha256_digest(input.as_bytes());
        let s = hex_encode(digest.as_slice());
        proof {
            lemma_hex_lower_len(digest@);
        }
        s
    }

    /// The URL of a path (starting with a one-byte character such as `/`)
    /// under the client's root, with the query pairs appended when given.
    pub fn build_url(&self, path: &str, param: Option<Vec<(String, String)>>) -> (u: String)
        requires
            path_cuttable(path@),
            full_url(self.root@, path@, opt_params_view(param)) is Some,
        ensures
            Some(u@) == full_url(self.root@, path@, opt_params_view(param)),
    {
        let rest = path.substring_char(1, path.unicode_len());
        let mut base = self.root.clone();
        base.append("/");
        base.append(rest);
        assert(base@ == self.root@ + "/"@ + path@.skip(1));
        match param {
            Some(q) => {
                let r = parse_url_with_query(base.as_str(), &q);
                match r {
                    Some(u) => u,
                    None => String::new(),
                }
            },
            None => {
                let r = parse_url(base.as_str());
                match r {
                    Some(u) => u,
                    None => String::new(),
                }
            },
        }
    }

    /// The URL of a path under the client's root, with the query pairs
    /// appended when given; `None` where the path is empty or starts with a
    /// multi-byte character, or the text does not parse as a URL.
    pub fn try_build_url(&self, path: &str, param: Option<Vec<(String, String)>>) -> (u: Option<String>)
        ensures
            match u {
                Some(t) => path_cuttable(path@) && Some(t@) == full_url(
                    self.root@,
                    path@,
                    opt_params_view(param),
                ),
                None => !path_cuttable(path@) || full_url(
                    self.root@,
                    path@,
                    opt_params_view(param),
                ) is None,
            },
    {
        let n = path.unicode_len();
        if n == 0 {
            return None;
        }
        let first = path.get_char(0);
        if (first as u32) >= 0x80 {
            return None;
        }
        let rest = path.substring_char(1, n);
        let mut base = self.root.clone();
        base.append("/");
        base.append(rest);
        assert(base@ == self.root@ + "/"@ + path@.skip(1));
        let probe = match &param {
            Some(q) => parse_url_with_query(base.as_str(), q),
            None => parse_url(base.as_str()),
        };
        match probe {
            Some(_) => Some(self.build_url(path, param)),
            None => None,
        }
    }

    /// The URL a request goes to, if it can be formed.
    pub fn request_url(&self, request: &ApiRequest) -> (u: Option<String>)
        ensures
            match u {
                Some(t) => Some(t@) == full_url(
                    self.root@,
                    super::endpoints::path_with_segments(
                        super::endpoints::endpoint_path(request.endpoint),
                        string_views(request.segments@),
                    ),
                    opt_params_view(request.query),
                ),
                None => {
                    let p = super::endpoints::path_with_segments(
                        super::endpoints::endpoint_path(request.endpoint),
                        string_views(request.segments@),
                    );
                    !path_cuttable(p) || full_url(self.root@, p, opt_params_view(request.query)) is None
                },
            },
    {
        let path = request.path();
        self.try_build_url(path.as_str(), clone_opt_params(&request.query))
    }
}

} // verus!
