use vstd::prelude::*;

use crate::service::ServiceTrait;

verus! {

/// The characters of each name and value of a list of query pairs.
pub open spec fn pairs_view(p: Seq<(String, String)>) -> Seq<(Seq<char>, Seq<char>)> {
    p.map_values(|q: (String, String)| (q.0@, q.1@))
}

/// The characters of an optional text.
pub open spec fn text_view(t: Option<String>) -> Option<Seq<char>> {
    match t {
        Some(s) => Some(s@),
        None => None,
    }
}

/// The serialized URL that `Url::parse_with_params` builds from a base URL
/// and query pairs, or `None` where the base does not parse.
pub uninterp spec fn url_with_query(base: Seq<char>, pairs: Seq<(Seq<char>, Seq<char>)>) -> Option<Seq<char>>;

/// Relies on url::Url::parse_with_params: parses `base` and appends the pairs,
/// form-encoded, as its query; fails only where `base` is no URL.
#[verifier::external_body]
fn parse_with_params(base: &str, pairs: &Vec<(String, String)>) -> (r: Option<String>)
    ensures
        text_view(r) == url_with_query(base@, pairs_view(pairs@)),
{
    url::Url::parse_with_params(base, pairs.iter()).ok().map(String::from)
}

/// The address of the update endpoint on `server`.
pub open spec fn update_endpoint(server: Seq<char>) -> Seq<char> {
    "https://"@ + server + "/nic/update"@
}

/// The query of a dyndns2 update: `myip` when there is an IPv4 text, `myipv6`
/// when there is an IPv6 text, and always `hostname`.
pub open spec fn update_query(
    identifier: Seq<char>,
    ip: Option<Seq<char>>,
    ipv6: Option<Seq<char>>,
) -> Seq<(Seq<char>, Seq<char>)> {
    let v4: Seq<(Seq<char>, Seq<char>)> = match ip {
        Some(t) => seq![("myip"@, t)],
        None => seq![],
    };
    let v6: Seq<(Seq<char>, Seq<char>)> = match ipv6 {
        Some(t) => seq![("myipv6"@, t)],
        None => seq![],
    };
    v4 + v6 + seq![("hostname"@, identifier)]
}

/// A service that speaks the dyndns2 update protocol.
pub struct Dyndns2 {
    pub server: String,
    pub login: String,
    pub password: String,
    pub identifier: String,
}

impl ServiceTrait for Dyndns2 {
    open spec fn identifier(&self) -> Seq<char> {
        self.identifier@
    }

    open spec fn server(&self) -> Seq<char> {
        self.server@
    }

    fn get_server(&self) -> (r: &String) {
        &self.server
    }

    fn get_identifier(&self) -> (r: &String) {
        &self.identifier
    }
}

impl Dyndns2 {
    /// The query pairs of an update that reports the given address texts.
    pub fn update_params(&self, ip: Option<String>, ipv6: Option<String>) -> (r: Vec<(String, String)>)
        ensures
            pairs_view(r@) == update_query(self.identifier@, text_view(ip), text_view(ipv6)),
    {
        let ghost ip_v = text_view(ip);
        let ghost ipv6_v = text_view(ipv6);
        let mut params: Vec<(String, String)> = Vec::new();
        if let Some(t) = ip {
            params.push((String::from_str("myip"), t));
        }
        if let Some(t) = ipv6 {
            params.push((String::from_str("myipv6"), t));
        }
        params.push((String::from_str("hostname"), self.identifier.clone()));
        assert(pairs_view(params@) =~= update_query(self.identifier@, ip_v, ipv6_v));
        params
    }

    /// The full update URL for the given address texts, or `None` where the
    /// server name does not make a URL.
    pub fn update_url(&self, ip: Option<String>, ipv6: Option<String>) -> (r: Option<String>)
        ensures
            text_view(r) == url_with_query(
                update_endpoint(self.server@),
                update_query(self.identifier@, text_view(ip), text_view(ipv6)),
            ),
    {
        let params = self.update_params(ip, ipv6);
        let mut base = String::from_str("https://");
        base.append(self.server.as_str());
        base.append("/nic/update");
        parse_with_params(base.as_str(), &params)
    }
}

/// Whether an HTTP status reports success (2xx).
pub fn status_is_success(status: u16) -> (r: bool)
    ensures
        r == (200 <= status && status < 300),
{
    200 <= status && status < 300
}

} // verus!
