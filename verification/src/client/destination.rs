//! Where a client connects to, given the URI that it is to request.

use vstd::prelude::*;
use vstd::string::StringExecFns;

verus! {

/// The port of a destination whose URI names none.
pub const DEFAULT_PORT: u16 = 443;

/// A host and the port on it.
#[derive(Debug)]
pub struct Destination {
    /// The host.
    pub host: String,
    /// The port.
    pub port: u16,
}

/// Why a URI names no destination.
#[derive(Clone, Copy, Debug, PartialEq, Eq, Structural)]
pub enum DestinationError {
    /// The scheme is not `https`.
    Scheme,
    /// There is no host.
    Host,
}

/// The parts of a URI that a destination depends on: the scheme, the host and
/// the port, each if there is one.
#[derive(Debug)]
pub struct UriParts {
    /// The scheme.
    pub scheme: Option<String>,
    /// The host.
    pub host: Option<String>,
    /// The port.
    pub port: Option<u16>,
}

/// The text of a part of a URI.
pub open spec fn text(part: Option<String>) -> Option<Seq<char>> {
    match part {
        Some(string) => Some(string@),
        None => None,
    }
}

impl View for UriParts {
    type V = (Option<Seq<char>>, Option<Seq<char>>, Option<u16>);

    /// The scheme, the host and the port.
    open spec fn view(&self) -> (Option<Seq<char>>, Option<Seq<char>>, Option<u16>) {
        (text(self.scheme), text(self.host), self.port)
    }
}

impl View for Destination {
    type V = (Seq<char>, u16);

    /// The host and the port.
    open spec fn view(&self) -> (Seq<char>, u16) {
        (self.host@, self.port)
    }
}

/// The scheme, host and port of the URI that `http::Uri` reads in a text, or
/// nothing where the text is no URI.
pub uninterp spec fn parsed_uri(uri: Seq<char>) -> Option<
    (Option<Seq<char>>, Option<Seq<char>>, Option<u16>),
>;

/// `http::Uri` read from a text with `str::parse`; its `scheme_str`, `host` and
/// `port_u16` are the three parts.
///
/// The contract names what is read, [`parsed_uri`], and claims of it only that
/// it depends on the text alone.
#[verifier::external_body]
fn parse_uri(uri: &str) -> (out: Option<UriParts>)
    ensures
        (match out {
            Some(parts) => Some(parts@),
            None => None,
        }) == parsed_uri(uri@),
{
    let uri = uri.parse::<http::Uri>().ok()?;
    Some(UriParts {
        scheme: uri.scheme_str().map(String::from),
        host: uri.host().map(String::from),
        port: uri.port_u16(),
    })
}

/// The destination of a URI with this scheme, host and port.
pub open spec fn destination_of(
    parts: (Option<Seq<char>>, Option<Seq<char>>, Option<u16>),
) -> Result<(Seq<char>, u16), DestinationError> {
    if parts.0 != Some("https"@) {
        Err(DestinationError::Scheme)
    } else {
        match (parts.1, parts.2) {
            (None, _) => Err(DestinationError::Host),
            (Some(host), Some(port)) => Ok((host, port)),
            (Some(host), None) => Ok((host, DEFAULT_PORT)),
        }
    }
}

/// What a result says, its destination taken as host and port.
pub open spec fn outcome(result: Result<Destination, DestinationError>) -> Result<
    (Seq<char>, u16),
    DestinationError,
> {
    match result {
        Ok(destination) => Ok(destination@),
        Err(error) => Err(error),
    }
}

impl DestinationError {
    /// The message of an error.
    pub fn message(&self) -> (out: &'static str)
        ensures
            out@ == match self {
                DestinationError::Scheme => "destination scheme must be 'https'"@,
                DestinationError::Host => "destination must have a host"@,
            },
    {
        match self {
            DestinationError::Scheme => "destination scheme must be 'https'",
            DestinationError::Host => "destination must have a host",
        }
    }
}

/// The destination of a URI with these parts: the scheme has to be `https`,
/// there has to be a host, and the port is [`DEFAULT_PORT`] unless the URI names
/// one.
pub fn select_destination(parts: UriParts) -> (out: Result<Destination, DestinationError>)
    ensures
        outcome(out) == destination_of(parts@),
{
    let https = String::from_str("https");
    match parts.scheme {
        Some(scheme) => {
            if scheme != https {
                return Err(DestinationError::Scheme);
            }
        },
        None => {
            return Err(DestinationError::Scheme);
        },
    }
    match parts.host {
        Some(host) => {
            let port: u16 = match parts.port {
                Some(port) => port,
                None => DEFAULT_PORT,
            };
            Ok(Destination { host, port })
        },
        None => Err(DestinationError::Host),
    }
}

/// The destination that a URI names, or `None` where the text is no URI.
pub fn destination(uri: &str) -> (out: Option<Result<Destination, DestinationError>>)
    ensures
        match parsed_uri(uri@) {
            Some(parts) => out matches Some(result) && outcome(result) == destination_of(parts),
            None => out is None,
        },
{
    match parse_uri(uri) {
        Some(parts) => Some(select_destination(parts)),
        None => None,
    }
}

/// A URI has a destination if and only if its scheme is `https` and it has a
/// host, whatever port it names. The destination has that host; it has the port
/// that the URI names, whichever that is, and 443 where it names none. Where the
/// scheme is another one, or there is none, that is the error; else a missing
/// host is. Every URI is answered.
pub proof fn law_a_destination_has_the_host_and_port_named(
    parts: UriParts,
    out: Result<Destination, DestinationError>,
)
    requires
        call_ensures(select_destination, (parts,), out),
    ensures
        call_requires(select_destination, (parts,)),
        out is Ok <==> (parts.scheme matches Some(scheme) && scheme@ == "https"@)
            && parts.host is Some,
        out matches Ok(to) ==> {
            &&& parts.host matches Some(host) && to.host@ == host@
            &&& parts.port matches Some(port) ==> to.port == port
            &&& parts.port is None ==> to.port == 443
        },
        out == Err::<Destination, DestinationError>(DestinationError::Scheme) <==> !(
        parts.scheme matches Some(scheme) && scheme@ == "https"@),
        out == Err::<Destination, DestinationError>(DestinationError::Host) <==> (
        parts.scheme matches Some(scheme) && scheme@ == "https"@) && parts.host is None,
{
}

/// Of two URIs that have a destination, the destinations are the same if and
/// only if they name the same host and the same port, where naming none is naming
/// 443.
pub proof fn law_destinations_differ_where_host_or_port_do(
    one: UriParts,
    other: UriParts,
    out: Result<Destination, DestinationError>,
    of_other: Result<Destination, DestinationError>,
)
    requires
        call_ensures(select_destination, (one,), out),
        call_ensures(select_destination, (other,), of_other),
        out is Ok,
        of_other is Ok,
    ensures
        out->Ok_0.host@ == of_other->Ok_0.host@ <==> one.host->0@ == other.host->0@,
        out->Ok_0.port == of_other->Ok_0.port <==> one.port == other.port || (
        one.port is None && other.port == Some(443u16)) || (other.port is None && one.port == Some(
            443u16,
        )),
{
}

/// The destination that a text names is that of the URI read in it: there is
/// an answer if and only if the text is a URI; there is a destination if and only
/// if the scheme read is `https` and a host was read; and it has the host and the
/// port read, or 443 where no port was.
pub proof fn law_the_destination_is_that_of_the_uri(
    uri: &str,
    out: Option<Result<Destination, DestinationError>>,
    scheme: Option<Seq<char>>,
    host: Option<Seq<char>>,
    port: Option<u16>,
)
    requires
        call_ensures(destination, (uri,), out),
    ensures
        call_requires(destination, (uri,)),
        out is None <==> parsed_uri(uri@) is None,
        parsed_uri(uri@) == Some((scheme, host, port)) ==> {
            &&& (out matches Some(Ok(_))) <==> scheme == Some("https"@) && host is Some
            &&& out matches Some(Ok(to)) ==> {
                &&& host == Some(to.host@)
                &&& port is Some ==> port == Some(to.port)
                &&& port is None ==> to.port == 443
            }
            &&& out == Some(Err::<Destination, DestinationError>(DestinationError::Scheme))
                <==> scheme != Some("https"@)
            &&& out == Some(Err::<Destination, DestinationError>(DestinationError::Host))
                <==> scheme == Some("https"@) && host is None
        },
{
}

/// The parts of a URI are read as they are: each part of the view is there if
/// and only if that part is, and has its text or number. So it is with the host
/// and the port of a destination.
pub proof fn law_views_show_the_parts(parts: UriParts, to: Destination)
    ensures
        parts.scheme is Some <==> parts@.0 is Some,
        parts.scheme matches Some(scheme) ==> parts@.0 == Some(scheme@),
        parts.host is Some <==> parts@.1 is Some,
        parts.host matches Some(host) ==> parts@.1 == Some(host@),
        parts.port == parts@.2,
        to@.0 == to.host@,
        to@.1 == to.port,
{
}

/// An error of the scheme and one of the host have different messages, each
/// its own.
pub proof fn law_each_error_has_its_message(error: DestinationError, out: &'static str)
    requires
        call_ensures(DestinationError::message, (&error,), out),
    ensures
        call_requires(DestinationError::message, (&error,)),
        error is Scheme <==> out@ == "destination scheme must be 'https'"@,
        error is Host <==> out@ == "destination must have a host"@,
{
    reveal_strlit("destination scheme must be 'https'");
    reveal_strlit("destination must have a host");
    assert("destination scheme must be 'https'"@.len() != "destination must have a host"@.len());
}

} // verus!
