use vstd::prelude::*;
use vstd::string::*;

verus! {

/// Whether `http::Uri::from_str` accepts `text` as a URI.
pub uninterp spec fn uri_accepts(text: Seq<char>) -> bool;

/// A character that may stand in a plain host and port: an ASCII letter or
/// digit, `.`, `-` or `:`.
pub open spec fn is_host_char(c: char) -> bool {
    ('a' <= c && c <= 'z') || ('A' <= c && c <= 'Z') || ('0' <= c && c <= '9') || c == '.' || c == '-'
        || c == ':'
}

/// A plain host with an optional port: not empty, made of host characters,
/// with at most one `:`.
pub open spec fn is_plain_host(h: Seq<char>) -> bool {
    &&& h.len() > 0
    &&& forall|i: int| 0 <= i < h.len() ==> is_host_char(#[trigger] h[i])
    &&& forall|i: int, j: int| 0 <= i < h.len() && 0 <= j < h.len() && h[i] == ':' && h[j] == ':' ==> i == j
}

/// A plain web endpoint: `http://` or `https://` followed by a plain host
/// with an optional port, such as `http://localhost:9000` or
/// `https://play.min.io`, at most 65534 characters long.
pub open spec fn is_plain_web_endpoint(text: Seq<char>) -> bool {
    &&& text.len() <= 65534
    &&& {
        ||| (text.len() > 7 && text.subrange(0, 7) == "http://"@ && is_plain_host(text.subrange(7, text.len() as int)))
        ||| (text.len() > 8 && text.subrange(0, 8) == "https://"@ && is_plain_host(text.subrange(8, text.len() as int)))
    }
}

/// The error of `http::Uri` parsing, carried through unopened.
#[verifier::external_type_specification]
#[verifier::external_body]
pub struct ExInvalidUri(http::uri::InvalidUri);

/// Parses `text` with `http::Uri::from_str` and keeps only whether it is a
/// URI (with the parser's error when it is not). Stated of it: the answer is
/// a function of the text; the empty text is refused (the parser's
/// `ErrorKind::Empty`); a plain web endpoint is accepted (the scheme is
/// recognised as `http://` or `https://`, every character of the rest is a
/// URI character, there is no bracket, `@` or `%`, at most one `:`, and the
/// text is within the parser's length limit). Which other texts it accepts
/// is left to its name.
#[verifier::external_body]
fn check_uri(text: &str) -> (r: Result<(), http::uri::InvalidUri>)
    ensures
        r is Ok <==> uri_accepts(text@),
        text@.len() == 0 ==> r is Err,
        is_plain_web_endpoint(text@) ==> r is Ok,
{
    match text.parse::<http::Uri>() {
        Ok(_) => Ok(()),
        Err(e) => Err(e),
    }
}

/// Why the object-store settings could not be made.
pub enum SettingsError {
    /// The endpoint is not a URI.
    InvalidEndpoint(http::uri::InvalidUri),
}

/// How to reach the object store that holds the uploaded functions.
pub struct MinioSettings {
    pub endpoint: String,
    pub access_key: String,
    pub secret_key: String,
    pub region: String,
    pub bucket: String,
}

/// The region used when none is given.
pub open spec fn default_region() -> Seq<char> {
    "us-east-1"@
}

impl MinioSettings {
    /// Settings for the store at `endpoint` with static credentials; the
    /// region is `us-east-1` unless one is given. Refused exactly when the
    /// endpoint is no URI.
    pub fn new(
        endpoint: &str,
        access_key: &str,
        secret_key: &str,
        bucket_name: &str,
        region: Option<&str>,
    ) -> (r: Result<Self, SettingsError>)
        ensures
            r is Ok <==> uri_accepts(endpoint@),
            endpoint@.len() == 0 ==> r is Err,
            is_plain_web_endpoint(endpoint@) ==> r is Ok,
            r matches Ok(s) ==> {
                &&& s.endpoint@ == endpoint@
                &&& s.access_key@ == access_key@
                &&& s.secret_key@ == secret_key@
                &&& s.bucket@ == bucket_name@
                &&& s.region@ == match region {
                    Some(name) => name@,
                    None => default_region(),
                }
            },
    {
        match check_uri(endpoint) {
            Err(e) => Err(SettingsError::InvalidEndpoint(e)),
            Ok(()) => {
                let region = match region {
                    Some(name) => String::from_str(name),
                    None => String::from_str("us-east-1"),
                };
                Ok(
                    MinioSettings {
                        endpoint: String::from_str(endpoint),
                        access_key: String::from_str(access_key),
                        secret_key: String::from_str(secret_key),
                        region,
                        bucket: String::from_str(bucket_name),
                    },
                )
            },
        }
    }
}

/// The settings of the local MinIO server that holds the functions: the
/// endpoint `http://localhost:9000`, the default credentials and the
/// `wasm-functions` bucket.
pub fn default_minio_settings() -> (r: Result<MinioSettings, SettingsError>)
    ensures
        r is Ok <==> uri_accepts("http://localhost:9000"@),
        r is Ok,
        r matches Ok(s) ==> {
            &&& s.endpoint@ == "http://localhost:9000"@
            &&& s.access_key@ == "minioadmin"@
            &&& s.secret_key@ == "minioadmin"@
            &&& s.bucket@ == "wasm-functions"@
            &&& s.region@ == default_region()
        },
{
    proof { lemma_local_endpoint_is_plain(); }
    MinioSettings::new("http://localhost:9000", "minioadmin", "minioadmin", "wasm-functions", None)
}

/// The local MinIO endpoint is a plain web endpoint.
proof fn lemma_local_endpoint_is_plain()
    ensures
        is_plain_web_endpoint("http://localhost:9000"@),
{
    reveal_strlit("http://localhost:9000");
    reveal_strlit("http://");
    let t = "http://localhost:9000"@;
    assert(t.subrange(0, 7) =~= "http://"@);
    let h = t.subrange(7, t.len() as int);
    assert(forall|i: int| 0 <= i < h.len() ==> is_host_char(#[trigger] h[i]));
    assert(forall|i: int| 0 <= i < h.len() && h[i] == ':' ==> i == 9);
}

} // verus!
