//! Descriptions of the REST calls that the account helpers make: method,
//! endpoint and parameters. Signing and sending them is the caller's part.
use vstd::prelude::*;

verus! {

#[derive(Clone, Copy, PartialEq, Eq, Structural, Debug)]
pub enum Method {
    Get,
    Post,
    Put,
    Delete,
}

/// The REST endpoints that the account helpers address.
#[derive(Clone, Copy, PartialEq, Eq, Structural, Debug)]
pub enum Endpoint {
    MarginAccount,
    MarginAccountIsolated,
    MarginOpenOrders,
    MarginAllOrders,
    MarginOrder,
    SpotUserDataStream,
    MarginUserDataStream,
    FuturesUserDataStream,
}

pub open spec fn endpoint_path(e: Endpoint) -> Seq<char> {
    match e {
        Endpoint::MarginAccount => "/sapi/v1/margin/account"@,
        Endpoint::MarginAccountIsolated => "/sapi/v1/margin/isolated/account"@,
        Endpoint::MarginOpenOrders => "/sapi/v1/margin/openOrders"@,
        Endpoint::MarginAllOrders => "/sapi/v1/margin/allOrders"@,
        Endpoint::MarginOrder => "/sapi/v1/margin/order"@,
        Endpoint::SpotUserDataStream => "/api/v3/userDataStream"@,
        Endpoint::MarginUserDataStream => "/sapi/v1/userDataStream"@,
        Endpoint::FuturesUserDataStream => "/fapi/v1/listenKey"@,
    }
}

impl Endpoint {
    /// The path of this endpoint.
    pub fn path(&self) -> (r: String)
        ensures
            r@ == endpoint_path(*self),
    {
        match self {
            Endpoint::MarginAccount => String::from_str("/sapi/v1/margin/account"),
            Endpoint::MarginAccountIsolated => String::from_str("/sapi/v1/margin/isolated/account"),
            Endpoint::MarginOpenOrders => String::from_str("/sapi/v1/margin/openOrders"),
            Endpoint::MarginAllOrders => String::from_str("/sapi/v1/margin/allOrders"),
            Endpoint::MarginOrder => String::from_str("/sapi/v1/margin/order"),
            Endpoint::SpotUserDataStream => String::from_str("/api/v3/userDataStream"),
            Endpoint::MarginUserDataStream => String::from_str("/sapi/v1/userDataStream"),
            Endpoint::FuturesUserDataStream => String::from_str("/fapi/v1/listenKey"),
        }
    }
}

/// One query parameter.
#[derive(Clone, Debug, PartialEq)]
pub struct Param {
    pub key: String,
    pub value: String,
}

/// A REST call to make. Its parameters are in ascending order of key, as the
/// signature is computed over them; `recv_window` is set on signed calls.
#[derive(Clone, Debug, PartialEq)]
pub struct Request {
    pub method: Method,
    pub endpoint: Endpoint,
    pub params: Vec<Param>,
    pub recv_window: Option<u64>,
}

pub open spec fn params_view(ps: Seq<Param>) -> Seq<(Seq<char>, Seq<char>)> {
    ps.map_values(|p: Param| (p.key@, p.value@))
}

impl Request {
    /// A call with no parameters yet.
    pub fn new(method: Method, endpoint: Endpoint, recv_window: Option<u64>) -> (r: Request)
        ensures
            r.method == method,
            r.endpoint == endpoint,
            r.recv_window == recv_window,
            params_view(r.params@) == Seq::<(Seq<char>, Seq<char>)>::empty(),
    {
        let r = Request { method, endpoint, params: Vec::new(), recv_window };
        assert(params_view(r.params@) =~= Seq::<(Seq<char>, Seq<char>)>::empty());
        r
    }

    /// This call with one more parameter at the end.
    pub fn param(self, key: &str, value: String) -> (r: Request)
        ensures
            r.method == self.method,
            r.endpoint == self.endpoint,
            r.recv_window == self.recv_window,
            params_view(r.params@) == params_view(self.params@).push((key@, value@)),
    {
        let Request { method, endpoint, mut params, recv_window } = self;
        let ghost before = params@;
        params.push(Param { key: String::from_str(key), value });
        assert(params_view(params@) =~= params_view(before).push((key@, value@)));
        Request { method, endpoint, params, recv_window }
    }
}

} // verus!
