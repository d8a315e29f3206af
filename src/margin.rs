//! Margin account calls.
use vstd::prelude::*;
use crate::request::{Endpoint, Method, Request, params_view};
use crate::text::{bool_text, bool_to_string, decimal, usize_to_string};

verus! {

/// How a margin order borrows or repays.
#[derive(Clone, Copy, PartialEq, Eq, Structural, Debug)]
pub enum SideEffectType {
    NoSideEffect,
    MarginBuy,
    AutoRepay,
}

impl Default for SideEffectType {
    fn default() -> (r: Self)
        ensures
            r == SideEffectType::NoSideEffect,
    {
        SideEffectType::NoSideEffect
    }
}

/// The name of a side effect, as the REST interface expects it.
pub open spec fn side_effect_text(s: SideEffectType) -> Seq<char> {
    match s {
        SideEffectType::NoSideEffect => "NO_SIDE_EFFECT"@,
        SideEffectType::MarginBuy => "MARGIN_BUY"@,
        SideEffectType::AutoRepay => "AUTO_REPAY"@,
    }
}

impl SideEffectType {
    pub fn as_string(self) -> (r: String)
        ensures
            r@ == side_effect_text(self),
    {
        match self {
            SideEffectType::NoSideEffect => String::from_str("NO_SIDE_EFFECT"),
            SideEffectType::MarginBuy => String::from_str("MARGIN_BUY"),
            SideEffectType::AutoRepay => String::from_str("AUTO_REPAY"),
        }
    }
}

/// The margin account calls of one account, cross or isolated.
#[derive(Clone, Copy)]
pub struct MarginAccount {
    pub is_isolated: bool,
    pub recv_window: u64,
}

impl MarginAccount {
    /// A signed call on the given endpoint, with no parameters yet.
    pub open spec fn signed(&self, r: Request, method: Method, endpoint: Endpoint) -> bool {
        r.method == method && r.endpoint == endpoint && r.recv_window == Some(self.recv_window)
    }

    /// Account information.
    pub fn get_account(&self) -> (r: Request)
        ensures
            self.signed(r, Method::Get, Endpoint::MarginAccount),
            params_view(r.params@) == Seq::<(Seq<char>, Seq<char>)>::empty(),
    {
        Request::new(Method::Get, Endpoint::MarginAccount, Some(self.recv_window))
    }

    /// Isolated account information.
    pub fn get_isolated_account(&self) -> (r: Request)
        ensures
            self.signed(r, Method::Get, Endpoint::MarginAccountIsolated),
            params_view(r.params@) == Seq::<(Seq<char>, Seq<char>)>::empty(),
    {
        Request::new(Method::Get, Endpoint::MarginAccountIsolated, Some(self.recv_window))
    }

    /// The open orders of one symbol.
    pub fn get_open_orders(&self, symbol: &str) -> (r: Request)
        ensures
            self.signed(r, Method::Get, Endpoint::MarginOpenOrders),
            params_view(r.params@) == seq![
                ("isIsolated"@, bool_text(self.is_isolated)),
                ("symbol"@, symbol@),
            ],
    {
        let r = Request::new(Method::Get, Endpoint::MarginOpenOrders, Some(self.recv_window)).param(
            "isIsolated",
            bool_to_string(self.is_isolated),
        ).param("symbol", String::from_str(symbol));
        assert(params_view(r.params@) =~= seq![
            ("isIsolated"@, bool_text(self.is_isolated)),
            ("symbol"@, symbol@),
        ]);
        r
    }

    /// The open orders of all symbols.
    pub fn get_all_open_orders(&self) -> (r: Request)
        ensures
            self.signed(r, Method::Get, Endpoint::MarginOpenOrders),
            params_view(r.params@) == seq![("isIsolated"@, bool_text(self.is_isolated))],
    {
        let r = Request::new(Method::Get, Endpoint::MarginOpenOrders, Some(self.recv_window)).param(
            "isIsolated",
            bool_to_string(self.is_isolated),
        );
        assert(params_view(r.params@) =~= seq![("isIsolated"@, bool_text(self.is_isolated))]);
        r
    }

    /// Up to `limit` orders of one symbol, open or not.
    pub fn get_all_orders(&self, symbol: &str, limit: usize) -> (r: Request)
        ensures
            self.signed(r, Method::Get, Endpoint::MarginAllOrders),
            params_view(r.params@) == seq![
                ("isIsolated"@, bool_text(self.is_isolated)),
                ("limit"@, decimal(limit as nat)),
                ("symbol"@, symbol@),
            ],
    {
        let r = Request::new(Method::Get, Endpoint::MarginAllOrders, Some(self.recv_window)).param(
            "isIsolated",
            bool_to_string(self.is_isolated),
        ).param("limit", usize_to_string(limit)).param("symbol", String::from_str(symbol));
        assert(params_view(r.params@) =~= seq![
            ("isIsolated"@, bool_text(self.is_isolated)),
            ("limit"@, decimal(limit as nat)),
            ("symbol"@, symbol@),
        ]);
        r
    }

    /// The status of one order, by its client order id.
    pub fn get_order_status(&self, symbol: &str, client_order_id: &str) -> (r: Request)
        ensures
            self.signed(r, Method::Get, Endpoint::MarginOrder),
            params_view(r.params@) == seq![
                ("isIsolated"@, bool_text(self.is_isolated)),
                ("origClientOrderId"@, client_order_id@),
                ("symbol"@, symbol@),
            ],
    {
        let r = Request::new(Method::Get, Endpoint::MarginOrder, Some(self.recv_window)).param(
            "isIsolated",
            bool_to_string(self.is_isolated),
        ).param("origClientOrderId", String::from_str(client_order_id)).param(
            "symbol",
            String::from_str(symbol),
        );
        assert(params_view(r.params@) =~= seq![
            ("isIsolated"@, bool_text(self.is_isolated)),
            ("origClientOrderId"@, client_order_id@),
            ("symbol"@, symbol@),
        ]);
        r
    }

    /// Cancels one order, by its client order id.
    pub fn cancel_order_with_client_id(&self, symbol: &str, orig_client_order_id: String) -> (r:
        Request)
        ensures
            self.signed(r, Method::Delete, Endpoint::MarginOrder),
            params_view(r.params@) == seq![
                ("isIsolated"@, bool_text(self.is_isolated)),
                ("origClientOrderId"@, orig_client_order_id@),
                ("symbol"@, symbol@),
            ],
    {
        let ghost id = orig_client_order_id@;
        let r = Request::new(Method::Delete, Endpoint::MarginOrder, Some(self.recv_window)).param(
            "isIsolated",
            bool_to_string(self.is_isolated),
        ).param("origClientOrderId", orig_client_order_id).param(
            "symbol",
            String::from_str(symbol),
        );
        assert(params_view(r.params@) =~= seq![
            ("isIsolated"@, bool_text(self.is_isolated)),
            ("origClientOrderId"@, id),
            ("symbol"@, symbol@),
        ]);
        r
    }
}

} // verus!
