use vstd::prelude::*;
use vstd::string::*;

use crate::decimal::{decimal, format_decimal, lemma_parse_decimal_roundtrip, parse_u16, parse_u16_spec};
use crate::metrics::FunctionMetrics;
use crate::paths::{cache_path, cache_path_spec};
use crate::store::MetricsStore;

verus! {

/// The answer the server gives to a request.
pub enum Reply {
    /// A plain-text answer with an HTTP status.
    Text { status: u16, body: String },
    /// The metrics of one function, answered as JSON with status 200.
    Metrics(FunctionMetrics),
    /// The metrics of all functions, answered as JSON with status 200.
    AllMetrics(MetricsStore),
}

impl Reply {
    /// The HTTP status of the answer.
    pub fn status(&self) -> (code: u16)
        ensures
            code == match self {
                Reply::Text { status, .. } => *status,
                _ => 200u16,
            },
    {
        match self {
            Reply::Text { status, .. } => *status,
            _ => 200,
        }
    }
}

/// The name of the object-store bucket that holds the uploaded functions.
pub open spec fn function_bucket_spec() -> Seq<char> {
    "neelabucket"@
}

/// The name of the object-store bucket that holds the uploaded functions.
pub fn function_bucket() -> (name: String)
    ensures
        name@ == function_bucket_spec(),
{
    String::from_str("neelabucket")
}

/// The port that the health check reports: the `PORT` setting, or 8080 when
/// there is none, read as `u16::from_str` reads it (`None` when it is no port).
pub fn server_port(setting: Option<String>) -> (port: Option<u16>)
    ensures
        port == parse_u16_spec(match setting {
            Some(s) => s@,
            None => "8080"@,
        }),
        setting is None ==> port == Some(8080u16),
{
    match setting {
        Some(s) => parse_u16(s.as_str()),
        None => {
            proof {
                reveal_strlit("8080");
                lemma_parse_decimal_roundtrip(8080);
                assert(decimal(8080) =~= "8080"@) by {
                    reveal_with_fuel(decimal, 5);
                }
            }
            parse_u16("8080")
        },
    }
}

/// The health-check answer for a server on `port`.
pub fn health_reply(port: u16) -> (r: Reply)
    ensures
        r matches Reply::Text { status, body } && status == 200
            && body@ == "The server is alive and running at port "@ + decimal(port as nat) + "!"@,
{
    let mut body = String::from_str("The server is alive and running at port ");
    let digits = format_decimal(port as u64);
    body.append(digits.as_str());
    body.append("!");
    Reply::Text { status: 200, body }
}

/// Where to fetch a function from and where to put it.
pub struct DownloadRequest {
    pub bucket: String,
    pub object: String,
    pub path: String,
}

/// The download that runs the function `fn_name`: the object of that name in
/// the functions' bucket, fetched to the module cache.
pub fn download_request(fn_name: &String) -> (d: DownloadRequest)
    ensures
        d.bucket@ == function_bucket_spec(),
        d.object@ == fn_name@,
        d.path@ == cache_path_spec(fn_name@),
{
    DownloadRequest { bucket: function_bucket(), object: fn_name.clone(), path: cache_path(fn_name.as_str()) }
}

/// The answer to a run request: `None` when the fetched module was not there
/// (404), otherwise the output (200) or the error (500) of the run.
pub fn execute_reply(output: Option<Result<String, String>>) -> (r: Reply)
    ensures
        match output {
            None => r matches Reply::Text { status, body } && status == 404
                && body@ == "Function not found"@,
            Some(Ok(content)) => r matches Reply::Text { status, body } && status == 200
                && body@ == content@,
            Some(Err(e)) => r matches Reply::Text { status, body } && status == 500
                && body@ == e@,
        },
{
    match output {
        None => Reply::Text { status: 404, body: String::from_str("Function not found") },
        Some(Ok(content)) => Reply::Text { status: 200, body: content },
        Some(Err(e)) => Reply::Text { status: 500, body: e },
    }
}

/// What reading the metrics file gave.
pub enum MetricsFile {
    /// The file could not be read.
    Unreadable,
    /// The file was read, but did not hold metrics.
    Unparsable,
    /// The metrics that the file holds.
    Parsed(MetricsStore),
}

/// The metrics that the platform works with: those in the file, or none when
/// it cannot be read or does not hold metrics.
pub fn load_metrics(file: MetricsFile) -> (s: MetricsStore)
    ensures
        match file {
            MetricsFile::Parsed(stored) => s@ == stored@,
            _ => s@ == Map::<Seq<char>, crate::metrics::MetricsView>::empty(),
        },
{
    match file {
        MetricsFile::Parsed(stored) => stored,
        _ => MetricsStore::new(),
    }
}

/// The answer to a request for all metrics: always 200, with the metrics
/// that [`load_metrics`] gives.
pub fn metrics_reply(file: MetricsFile) -> (r: Reply)
    ensures
        r matches Reply::AllMetrics(s) && match file {
            MetricsFile::Parsed(stored) => s@ == stored@,
            _ => s@ == Map::<Seq<char>, crate::metrics::MetricsView>::empty(),
        },
{
    Reply::AllMetrics(load_metrics(file))
}

/// The answer to a request for the metrics of `fn_name`: 404 when the file
/// cannot be read, the function's metrics when it has some, otherwise 404.
pub fn function_metrics_reply(file: MetricsFile, fn_name: String) -> (r: Reply)
    ensures
        match file {
            MetricsFile::Unreadable => r matches Reply::Text { status, body } && status == 404
                && body@ == "Metrics data not found"@,
            MetricsFile::Unparsable => r matches Reply::Text { status, body } && status == 404
                && body@ == "No metrics found for function: "@ + fn_name@,
            MetricsFile::Parsed(stored) => if stored@.contains_key(fn_name@) {
                r matches Reply::Metrics(m) && m@ == stored@[fn_name@]
            } else {
                r matches Reply::Text { status, body } && status == 404
                    && body@ == "No metrics found for function: "@ + fn_name@
            },
        },
{
    let unreadable = match &file {
        MetricsFile::Unreadable => true,
        _ => false,
    };
    if unreadable {
        return Reply::Text { status: 404, body: String::from_str("Metrics data not found") };
    }
    let stored = load_metrics(file);
    match stored.get(&fn_name) {
        Some(m) => Reply::Metrics(m.duplicate()),
        None => {
            let mut body = String::from_str("No metrics found for function: ");
            body.append(fn_name.as_str());
            Reply::Text { status: 404, body }
        },
    }
}

} // verus!
