//! Where the node and the database are: the parts of the node URL, and the
//! default database path under the home directory.
use vstd::prelude::*;


verus! {

#[verifier::external_type_specification]
#[verifier::external_body]
pub struct ExUrlParseError(url::ParseError);

/// The parts of a URL that reaching a node needs.
#[derive(Debug, Clone, PartialEq, Eq)]
pub struct UrlParts {
    /// The scheme, lowercase, without `:`.
    pub scheme: String,
    /// The host, when the URL has one.
    pub host: Option<String>,
    /// The port, when given and not the scheme's default.
    pub port: Option<u16>,
}

/// What `url::Url::parse` makes of a string, seen through its scheme, host and
/// port; `None` where it refuses the string.
pub uninterp spec fn parsed_url(input: Seq<char>) -> Option<(Seq<char>, Option<Seq<char>>, Option<u16>)>;

/// The view of parsed URL parts.
pub open spec fn url_parts_view(p: UrlParts) -> (Seq<char>, Option<Seq<char>>, Option<u16>) {
    (
        p.scheme@,
        match p.host {
            Some(h) => Some(h@),
            None => None,
        },
        p.port,
    )
}

/// `url::Url::parse`, with the parsed URL read through `Url::scheme`,
/// `Url::host_str` and `Url::port`. The contract names the parts the parser
/// finds; it does not restate the URL grammar.
#[verifier::external_body]
fn parse_url(input: &str) -> (r: Result<UrlParts, url::ParseError>)
    ensures
        match r {
            Ok(p) => parsed_url(input@) == Some(url_parts_view(p)),
            Err(_) => parsed_url(input@) is None,
        },
{
    match url::Url::parse(input) {
        Ok(u) => Ok(UrlParts {
            scheme: u.scheme().to_string(),
            host: u.host_str().map(|h| h.to_string()),
            port: u.port(),
        }),
        Err(e) => Err(e),
    }
}

/// A node endpoint: protocol, host and optional port.
#[derive(Debug, Clone, PartialEq, Eq)]
pub struct EndpointParts {
    pub protocol: String,
    pub host: String,
    pub port: Option<u16>,
}

/// Why a node URL cannot be used.
#[derive(Debug)]
pub enum EndpointError {
    /// The URL does not parse.
    InvalidUrl(url::ParseError),
    /// The URL has no host.
    MissingHost,
}

impl EndpointError {
    /// The message for a URL without a host; a parse error is described by `url`.
    pub fn missing_host_message() -> (r: &'static str)
        ensures
            r@ == "URL must have a host"@,
    {
        "URL must have a host"
    }
}

/// The endpoint a URL names, given the parts found in it: its scheme as the
/// protocol, its host (required) and its port.
pub fn endpoint_from_parts(parts: UrlParts) -> (r: Result<EndpointParts, EndpointError>)
    ensures
        match parts.host {
            Some(h) => r matches Ok(e) && e.protocol == parts.scheme && e.host == h && e.port
                == parts.port,
            None => r matches Err(EndpointError::MissingHost),
        },
{
    match parts.host {
        Some(host) => Ok(EndpointParts { protocol: parts.scheme, host, port: parts.port }),
        None => Err(EndpointError::MissingHost),
    }
}

/// Reads the endpoint out of a node URL such as `http://localhost:57291`.
pub fn parse_endpoint(url: &str) -> (r: Result<EndpointParts, EndpointError>)
    ensures
        match parsed_url(url@) {
            None => r matches Err(EndpointError::InvalidUrl(_)),
            Some((scheme, None, _)) => r matches Err(EndpointError::MissingHost),
            Some((scheme, Some(host), port)) => r matches Ok(e) && e.protocol@ == scheme
                && e.host@ == host && e.port == port,
        },
{
    match parse_url(url) {
        Ok(parts) => endpoint_from_parts(parts),
        Err(e) => Err(EndpointError::InvalidUrl(e)),
    }
}

/// `PathBuf::push` of a relative component on a Unix path held as text: the
/// component is added after a `/`, unless the path is empty or already ends
/// with one.
pub open spec fn path_join(base: Seq<char>, comp: Seq<char>) -> Seq<char> {
    if base.len() == 0 || base.last() == '/' {
        base + comp
    } else {
        base + "/"@ + comp
    }
}

fn join(base: &str, comp: &str) -> (r: String)
    ensures
        r@ == path_join(base@, comp@),
{
    let n = base.unicode_len();
    let mut r = base.to_owned();
    if n == 0 || base.get_char(n - 1) == '/' {
        r.append(comp);
    } else {
        r.append("/");
        r.append(comp);
    }
    r
}

/// The directory of the explorer's data: `.miden-watch` in the home directory,
/// or in the working directory when there is no home.
pub open spec fn dirs_default_spec(home: Option<Seq<char>>) -> Seq<char> {
    match home {
        Some(h) => path_join(h, ".miden-watch"@),
        None => ".miden-watch"@,
    }
}

/// The directory of the explorer's data for a home directory (if any).
pub fn dirs_default(home: Option<&str>) -> (r: String)
    ensures
        r@ == dirs_default_spec(
            match home {
                Some(h) => Some(h@),
                None => None,
            },
        ),
{
    match home {
        Some(h) => join(h, ".miden-watch"),
        None => ".miden-watch".to_owned(),
    }
}

/// The default database file: `data.db` in the data directory.
pub fn default_db_path(home: Option<&str>) -> (r: String)
    ensures
        r@ == path_join(
            dirs_default_spec(
                match home {
                    Some(h) => Some(h@),
                    None => None,
                },
            ),
            "data.db"@,
        ),
{
    let dir = dirs_default(home);
    join(dir.as_str(), "data.db")
}

} // verus!
