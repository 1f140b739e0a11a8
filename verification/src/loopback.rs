//! Decisions of the RFC 8252 loopback listener: the redirect URI for the
//! bound port, and what each callback request triggers. The listener binds
//! `127.0.0.1:0`, waits for `GET /cb?code=...&state=...`, hands the first
//! callback to the waiting login and shuts down.

use vstd::prelude::*;

use crate::error::LeproError;
use crate::oidc::Callback;
use crate::text::{decimal, decimal_value, lemma_decimal_reads_back, push_decimal};

verus! {

/// The redirect URI for a listener on `port`: `http://127.0.0.1:{port}/cb`.
pub open spec fn redirect_uri_text(port: u16) -> Seq<char> {
    "http://127.0.0.1:"@ + decimal(port as nat) + "/cb"@
}

/// The redirect URI for a listener on `port`.
pub fn redirect_uri_for_port(port: u16) -> (res: String)
    ensures
        res@ == redirect_uri_text(port),
{
    let mut s = String::from_str("http://127.0.0.1:");
    push_decimal(&mut s, port as u32);
    s.append("/cb");
    s
}

/// Query parameters of a callback request: `code` is required, `state` may be absent.
#[derive(Debug, Clone, PartialEq)]
pub struct CallbackParams {
    pub code: String,
    pub state: Option<String>,
}

/// What the listener still has to hand out: the callback to the waiting
/// login, and the shutdown signal to the server.
#[derive(Debug, Clone, Copy, PartialEq, Eq, Structural)]
pub struct LoopbackState {
    pub callback_pending: bool,
    pub shutdown_pending: bool,
}

/// What a callback request makes the listener do.
#[derive(Debug, Clone, PartialEq)]
pub struct LoopbackActions {
    /// The callback to hand to the waiting login, if it is still waiting.
    pub deliver: Option<Callback>,
    /// Whether to signal the server to shut down.
    pub shutdown: bool,
}

/// One callback request moves the listener from `before` to `after` with `actions`:
/// the callback (state defaulting to empty) is delivered iff it was still
/// pending, the shutdown is signalled iff it was still pending, and neither
/// is pending afterwards.
pub open spec fn request_step(
    before: LoopbackState,
    params: CallbackParams,
    after: LoopbackState,
    actions: LoopbackActions,
) -> bool {
    &&& after == LoopbackState { callback_pending: false, shutdown_pending: false }
    &&& (actions.deliver is Some <==> before.callback_pending)
    &&& (actions.deliver matches Some(cb) ==> cb.code@ == params.code@ && cb.state@ == match params.state {
        Some(s) => s@,
        None => Seq::empty(),
    })
    &&& actions.shutdown == before.shutdown_pending
}

impl LoopbackState {
    /// A listener that has handed out nothing yet.
    pub fn new() -> (res: LoopbackState)
        ensures
            res.callback_pending && res.shutdown_pending,
    {
        LoopbackState { callback_pending: true, shutdown_pending: true }
    }

    /// Handles a callback request: only the first one delivers the callback
    /// and signals the shutdown.
    pub fn on_callback_request(&mut self, params: CallbackParams) -> (res: LoopbackActions)
        ensures
            request_step(*old(self), params, *final(self), res),
    {
        let deliver = if self.callback_pending {
            let state = match params.state {
                Some(s) => s,
                None => String::new(),
            };
            Some(Callback { code: params.code, state })
        } else {
            None
        };
        let shutdown = self.shutdown_pending;
        self.callback_pending = false;
        self.shutdown_pending = false;
        LoopbackActions { deliver, shutdown }
    }
}

/// Only the first callback request has an effect: a second request
/// delivers no callback and signals no shutdown.
pub proof fn lemma_second_request_has_no_effect(
    s0: LoopbackState,
    p1: CallbackParams,
    s1: LoopbackState,
    a1: LoopbackActions,
    p2: CallbackParams,
    s2: LoopbackState,
    a2: LoopbackActions,
)
    requires
        request_step(s0, p1, s1, a1),
        request_step(s1, p2, s2, a2),
    ensures
        a2.deliver is None,
        !a2.shutdown,
        s2 == s1,
{
}

/// The error when the listener stops before a callback arrived.
pub fn loopback_closed_error() -> (res: LeproError)
    ensures
        res matches LeproError::Oidc(m) && m@ == "loopback: 服务器在收到 code 前已关闭"@,
{
    LeproError::Oidc(String::from_str("loopback: 服务器在收到 code 前已关闭"))
}

/// The redirect URI names the listener's port: between `http://127.0.0.1:`
/// and `/cb` stand decimal digits that read back as `port`.
pub proof fn lemma_redirect_uri_names_port(port: u16)
    ensures
        redirect_uri_text(port).len() > 20,
        redirect_uri_text(port).subrange(0, 17) == "http://127.0.0.1:"@,
        redirect_uri_text(port).subrange(redirect_uri_text(port).len() - 3, redirect_uri_text(port).len() as int) == "/cb"@,
        decimal_value(redirect_uri_text(port).subrange(17, redirect_uri_text(port).len() - 3))
            == port,
        forall|i: int|
            17 <= i < redirect_uri_text(port).len() - 3 ==> '0' <= #[trigger] redirect_uri_text(port)[i]
                <= '9',
{
    reveal_strlit("http://127.0.0.1:");
    reveal_strlit("/cb");
    lemma_decimal_reads_back(port as nat);
    let u = redirect_uri_text(port);
    let d = decimal(port as nat);
    assert(u.subrange(0, 17) =~= "http://127.0.0.1:"@);
    assert(u.subrange(u.len() - 3, u.len() as int) =~= "/cb"@);
    assert(u.subrange(17, u.len() - 3) =~= d);
    assert forall|i: int| 17 <= i < u.len() - 3 implies '0' <= #[trigger] u[i] <= '9' by {
        assert(u[i] == d[i - 17]);
    }
}

} // verus!
