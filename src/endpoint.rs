//! Where a session connects: the URL of each addressing mode, and the host and
//! port that a URL names.
use vstd::prelude::*;
use vstd::string::StringExecFns;
use crate::errors::Error;

verus! {

/// A configured endpoint that replaces the default base URL.
#[derive(Clone, Debug)]
pub struct Config {
    pub ws_endpoint: String,
}

/// The base URL of the spot feed.
pub open spec fn spot_base() -> Seq<char> {
    "wss://stream.binance.com:9443"@
}

/// The addressing modes of the spot feed.
pub enum WebsocketAPI {
    /// One topic on the default endpoint.
    Default,
    /// Several topics, joined with `/`, on the default endpoint.
    MultiStream,
    /// One topic on a configured endpoint.
    Custom(String),
}

/// The URL of a subscription in an addressing mode of the spot feed.
pub open spec fn spot_url(api: WebsocketAPI, subscription: Seq<char>) -> Seq<char> {
    match api {
        WebsocketAPI::Default => spot_base() + "/ws/"@ + subscription,
        WebsocketAPI::MultiStream => spot_base() + "/stream?streams="@ + subscription,
        WebsocketAPI::Custom(base) => base@ + "/"@ + subscription,
    }
}

impl WebsocketAPI {
    pub fn params(self, subscription: &str) -> (r: String)
        ensures
            r@ == spot_url(self, subscription@),
    {
        match self {
            WebsocketAPI::Default => String::from_str("wss://stream.binance.com:9443").concat(
                "/ws/",
            ).concat(subscription),
            WebsocketAPI::MultiStream => String::from_str(
                "wss://stream.binance.com:9443",
            ).concat("/stream?streams=").concat(subscription),
            WebsocketAPI::Custom(base) => base.concat("/").concat(subscription),
        }
    }
}

/// The markets of the derivatives feed.
#[derive(Clone, Copy, PartialEq, Eq, Structural, Debug)]
pub enum FuturesMarket {
    USDM,
    COINM,
    Vanilla,
}

/// The base URL of a derivatives market.
pub open spec fn futures_base(market: FuturesMarket) -> Seq<char> {
    match market {
        FuturesMarket::USDM => "wss://fstream.binance.com"@,
        FuturesMarket::COINM => "wss://dstream.binance.com"@,
        FuturesMarket::Vanilla => "wss://vstream.binance.com"@,
    }
}

/// The addressing modes of the derivatives feed.
pub enum FuturesWebsocketAPI {
    Default,
    MultiStream,
    Custom(String),
}

/// The URL of a subscription in an addressing mode of a derivatives market.
pub open spec fn futures_url(api: FuturesWebsocketAPI, market: FuturesMarket, subscription: Seq<
    char,
>) -> Seq<char> {
    match api {
        FuturesWebsocketAPI::Default => futures_base(market) + "/ws/"@ + subscription,
        FuturesWebsocketAPI::MultiStream => futures_base(market) + "/stream?streams="@
            + subscription,
        FuturesWebsocketAPI::Custom(base) => base@ + "/"@ + subscription,
    }
}

impl FuturesWebsocketAPI {
    pub fn params(self, market: FuturesMarket, subscription: &str) -> (r: String)
        ensures
            r@ == futures_url(self, market, subscription@),
    {
        let base = match market {
            FuturesMarket::USDM => String::from_str("wss://fstream.binance.com"),
            FuturesMarket::COINM => String::from_str("wss://dstream.binance.com"),
            FuturesMarket::Vanilla => String::from_str("wss://vstream.binance.com"),
        };
        match self {
            FuturesWebsocketAPI::Default => base.concat("/ws/").concat(subscription),
            FuturesWebsocketAPI::MultiStream => base.concat("/stream?streams=").concat(
                subscription,
            ),
            FuturesWebsocketAPI::Custom(custom) => custom.concat("/").concat(subscription),
        }
    }
}

/// The topics joined with `/`.
pub open spec fn joined(topics: Seq<Seq<char>>) -> Seq<char>
    decreases topics.len(),
{
    if topics.len() == 0 {
        Seq::empty()
    } else if topics.len() == 1 {
        topics[0]
    } else {
        joined(topics.drop_last()) + "/"@ + topics.last()
    }
}

pub open spec fn topics_view(topics: Seq<String>) -> Seq<Seq<char>> {
    topics.map_values(|t: String| t@)
}

/// The topics joined with `/`.
pub fn join_topics(topics: &[String]) -> (r: String)
    ensures
        r@ == joined(topics_view(topics@)),
{
    let ghost ts = topics_view(topics@);
    if topics.len() == 0 {
        return String::new();
    }
    let mut r = topics[0].clone();
    let mut i: usize = 1;
    assert(ts.take(1) =~= seq![ts[0]]);
    while i < topics.len()
        invariant
            ts == topics_view(topics@),
            1 <= i <= topics@.len(),
            r@ == joined(ts.take(i as int)),
        decreases topics@.len() - i,
    {
        r = r.concat("/").concat(topics[i].as_str());
        assert(ts.take(i + 1).drop_last() =~= ts.take(i as int));
        i = i + 1;
    }
    assert(ts.take(i as int) =~= ts);
    r
}

/// Where a connection goes: its URL, and the host and port it names.
#[derive(Clone, Debug, PartialEq)]
pub struct ConnectTarget {
    pub url: String,
    pub host: String,
    pub port: u16,
}

/// What `url::Url::parse` reads from a text, reduced to the URL's host and its
/// explicit port; nothing when the text is no URL.
pub uninterp spec fn url_authority(s: Seq<char>) -> Option<(Option<Seq<char>>, Option<u16>)>;

/// Relies on `url::Url::parse`, `Url::host_str` and `Url::port`: the host and
/// the explicit port of a URL.
#[verifier::external_body]
fn parse_authority(s: &str) -> (r: Option<(Option<String>, Option<u16>)>)
    ensures
        match r {
            None => url_authority(s@) is None,
            Some((Some(h), p)) => url_authority(s@) == Some((Some(h@), p)),
            Some((None, p)) => url_authority(s@) == Some((None::<Seq<char>>, p)),
        },
{
    url::Url::parse(s).ok().map(|u| (u.host_str().map(|h| h.to_string()), u.port()))
}

/// The port a connection uses: the explicit one, else 443.
pub open spec fn port_or_default(p: Option<u16>) -> u16 {
    match p {
        Some(n) => n,
        None => 443,
    }
}

/// The target of a URL from what its parse gave: an error when it is no URL
/// or names no host; else its host, and its port or 443.
pub fn target_from_parts(url: String, parts: Option<(Option<String>, Option<u16>)>) -> (r: Result<
    ConnectTarget,
    Error,
>)
    ensures
        match parts {
            None => r matches Err(Error::UrlParse),
            Some((None, _)) => r matches Err(Error::MissingHost),
            Some((Some(h), p)) => r matches Ok(t) && t.url == url && t.host == h && t.port
                == port_or_default(p),
        },
{
    match parts {
        None => Err(Error::UrlParse),
        Some((None, _)) => Err(Error::MissingHost),
        Some((Some(host), p)) => {
            let port = match p {
                Some(n) => n,
                None => 443,
            };
            Ok(ConnectTarget { url, host, port })
        },
    }
}

/// `r` is what resolving the URL `url` gives: an error when it is no URL or
/// names no host; else the URL with its host, and its port or 443.
pub open spec fn resolves(url: Seq<char>, r: Result<ConnectTarget, Error>) -> bool {
    match url_authority(url) {
        None => r matches Err(Error::UrlParse),
        Some((None, _)) => r matches Err(Error::MissingHost),
        Some((Some(h), p)) => r matches Ok(t) && t.url@ == url && t.host@ == h && t.port
            == port_or_default(p),
    }
}

/// The target that a URL names.
pub fn resolve_target(url: String) -> (r: Result<ConnectTarget, Error>)
    ensures
        resolves(url@, r),
{
    let parts = parse_authority(url.as_str());
    target_from_parts(url, parts)
}

} // verus!
