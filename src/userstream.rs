//! Listen-key management of the account-event feed.
use vstd::prelude::*;
use crate::request::{Endpoint, Method, Request, params_view};

verus! {

/// The listen-key calls on one user-data-stream endpoint. They are sent with
/// the API key only, unsigned.
#[derive(Clone, Copy)]
pub struct UserStream {
    pub recv_window: u64,
    pub endpoint: Endpoint,
}

impl UserStream {
    /// Opens a stream and obtains its listen key.
    pub fn start(&self) -> (r: Request)
        ensures
            r.method == Method::Post,
            r.endpoint == self.endpoint,
            r.recv_window is None,
            params_view(r.params@) == Seq::<(Seq<char>, Seq<char>)>::empty(),
    {
        Request::new(Method::Post, self.endpoint, None)
    }

    /// Extends the life of a listen key.
    pub fn keep_alive(&self, listen_key: &str) -> (r: Request)
        ensures
            r.method == Method::Put,
            r.endpoint == self.endpoint,
            r.recv_window is None,
            params_view(r.params@) == seq![("listenKey"@, listen_key@)],
    {
        let r = Request::new(Method::Put, self.endpoint, None).param(
            "listenKey",
            String::from_str(listen_key),
        );
        assert(params_view(r.params@) =~= seq![("listenKey"@, listen_key@)]);
        r
    }

    /// Closes the stream of a listen key.
    pub fn close(&self, listen_key: &str) -> (r: Request)
        ensures
            r.method == Method::Delete,
            r.endpoint == self.endpoint,
            r.recv_window is None,
            params_view(r.params@) == seq![("listenKey"@, listen_key@)],
    {
        let r = Request::new(Method::Delete, self.endpoint, None).param(
            "listenKey",
            String::from_str(listen_key),
        );
        assert(params_view(r.params@) =~= seq![("listenKey"@, listen_key@)]);
        r
    }
}

} // verus!
