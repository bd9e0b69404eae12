//! Resolving a destination URL into the target of one overlay tunnel.
//!
//! The URL text is parsed by `hyper`'s URI parser; everything after the
//! parse — the secure flag and the port rule (an explicit port wins, else
//! 443 for the secure scheme and 80 otherwise) — is the library's own
//! verified logic.

use vstd::prelude::*;
use crate::app::CircuitInfo;
use crate::circuit::{
    circuit_plan, enrich_records, outcome_model, plan_lookups, records_of, EnrichTask,
    GeoLocation,
};

verus! {

/// What the URL parser reports of a destination URL: the host text,
/// whether the scheme is the secure one, and the explicit port, if any.
#[derive(Debug)]
pub struct UrlParts {
    pub host: String,
    pub secure: bool,
    pub port: Option<u16>,
}

/// Name for what `hyper`'s URI parser yields on a given URL text: the
/// host, the secure flag and the explicit port — or nothing where the text
/// does not parse as a URI with a host.
pub uninterp spec fn parsed_url(s: Seq<char>) -> Option<(Seq<char>, bool, Option<u16>)>;

/// Relies on `hyper::Uri` (`str::parse`, `Uri::host`, `Uri::scheme`,
/// `Uri::port_u16`): parsing the URL text and reading the host, the
/// scheme and the explicit port out of it.  The result depends on the
/// text alone.
#[verifier::external_body]
fn parse_url(s: &str) -> (r: Option<UrlParts>)
    ensures
        (r is Some) == (parsed_url(s@) is Some),
        r is Some ==> Some((r.unwrap().host@, r.unwrap().secure, r.unwrap().port)) == parsed_url(
            s@,
        ),
{
    match s.parse::<hyper::Uri>() {
        Ok(url) => {
            let secure = url.scheme() == Some(&hyper::http::uri::Scheme::HTTPS);
            match url.host() {
                Some(host) => Some(
                    UrlParts { host: host.to_owned(), secure, port: url.port_u16() },
                ),
                None => None,
            }
        },
        Err(_) => None,
    }
}

/// The port a scheme implies when the URL names none.
pub open spec fn default_port(secure: bool) -> u16 {
    if secure {
        443
    } else {
        80
    }
}

/// The port the tunnel is opened to: the explicit port when the URL names
/// one, else the scheme's default.
pub open spec fn resolved_port(explicit: Option<u16>, secure: bool) -> u16 {
    match explicit {
        Some(p) => p,
        None => default_port(secure),
    }
}

/// The target of one overlay tunnel: host, resolved port, and whether the
/// stream must be wrapped in TLS.
#[derive(Debug)]
pub struct OnionConnection {
    pub host: String,
    pub port: u16,
    pub is_https: bool,
}

impl OnionConnection {
    /// Resolves parsed URL parts into a connection target: an explicit
    /// port wins; otherwise the secure scheme picks 443 and any other 80.
    pub fn from_parts(parts: UrlParts) -> (c: OnionConnection)
        ensures
            c.host@ == parts.host@,
            c.is_https == parts.secure,
            c.port == resolved_port(parts.port, parts.secure),
    {
        let port = match parts.port {
            Some(p) => p,
            None => if parts.secure {
                443
            } else {
                80
            },
        };
        OnionConnection { host: parts.host, port, is_https: parts.secure }
    }

    /// Builds the connection target for a destination URL text; nothing
    /// where the text does not parse as a URL with a host.
    pub fn new(with_host: &str) -> (r: Option<OnionConnection>)
        ensures
            (r is Some) == (parsed_url(with_host@) is Some),
            r is Some ==> r.unwrap().host@ == parsed_url(with_host@).unwrap().0,
            r is Some ==> r.unwrap().is_https == parsed_url(with_host@).unwrap().1,
            r is Some ==> r.unwrap().port == resolved_port(
                parsed_url(with_host@).unwrap().2,
                parsed_url(with_host@).unwrap().1,
            ),
    {
        match parse_url(with_host) {
            Some(parts) => Some(OnionConnection::from_parts(parts)),
            None => None,
        }
    }

    /// Walks this connection's negotiated hop path and folds the pointwise
    /// lookup outcomes into the ordered enrichment record list, one record
    /// per task of the path's plan.  The caller obtains the plan from
    /// [`plan_lookups`], performs one geolocation lookup per
    /// [`EnrichTask::Lookup`] task, and publishes the returned list as one
    /// `CircuitInformation` event.
    pub fn get_circuit_information(
        &self,
        hops: &Vec<String>,
        outcomes: &Vec<Option<GeoLocation>>,
    ) -> (r: Vec<CircuitInfo>)
        requires
            outcomes@.len() == circuit_plan(hops@.map_values(|h: String| h@)).len(),
        ensures
            r@.map_values(|c: CircuitInfo| c@) =~= records_of(
                circuit_plan(hops@.map_values(|h: String| h@)),
                outcomes@.map_values(|o: Option<GeoLocation>| outcome_model(o)),
            ),
    {
        let tasks = plan_lookups(hops);
        proof {
            assert(tasks@.map_values(|t: EnrichTask| t@).len() == tasks@.len());
        }
        enrich_records(&tasks, outcomes)
    }
}

} // verus!
