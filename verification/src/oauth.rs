//! The capture state: one slot per delivery channel, the lifecycle of the
//! loopback listener, and the poller that hands each record out once.
//!
//! [`OAuthState`] is the single merge point of both channels. The loopback
//! listener delivers through [`OAuthState::handle_request`], the operating
//! system's deep link through [`OAuthState::handle_deep_link`], and the
//! consumer takes through [`OAuthState::poll`]. Whoever shares the state
//! between threads guards it with one lock, held for one call at a time.

use vstd::prelude::*;
use vstd::string::*;
use crate::address::{parse_url, parts_view, url_parse_result, UrlParts, UrlPartsView};
use crate::callback::{
    record_members,
    record_of_pairs,
    record_view,
    CallbackData,
    CallbackRecord,
};
use crate::json::json_object_text;
use crate::listener::{
    is_callback,
    loopback_url,
    route_body,
    route_parsed,
    route_record,
    route_request,
    route_status,
    HttpReply,
};
use crate::text::same_text;

verus! {

/// A single-item cell: a write replaces what is there, the one read empties it.
#[derive(Debug)]
pub struct CallbackSlot {
    data: Option<CallbackData>,
}

impl View for CallbackSlot {
    type V = Option<CallbackRecord>;

    closed spec fn view(&self) -> Option<CallbackRecord> {
        record_view(self.data)
    }
}

impl CallbackSlot {
    /// An empty slot.
    pub fn new() -> (slot: CallbackSlot)
        ensures
            slot@ is None,
    {
        CallbackSlot { data: None }
    }

    /// Stores a record, replacing any that is pending.
    pub fn put(&mut self, record: CallbackData)
        ensures
            final(self)@ == Some(record@),
        no_unwind
    {
        self.data = Some(record);
    }

    /// Takes the pending record out, leaving the slot empty.
    pub fn take(&mut self) -> (taken: Option<CallbackData>)
        ensures
            record_view(taken) == old(self)@,
            final(self)@ is None,
        no_unwind
    {
        let mut taken: Option<CallbackData> = None;
        core::mem::swap(&mut self.data, &mut taken);
        taken
    }

    /// Whether no record is pending.
    pub fn is_empty(&self) -> (empty: bool)
        ensures
            empty == (self@ is None),
    {
        self.data.is_none()
    }
}

/// The value of a running listener.
pub struct ServerModel {
    /// The port it was started on.
    pub port: u16,
    /// Whether its accept loop still runs.
    pub listening: bool,
    /// The record it has captured and not yet handed out.
    pub pending: Option<CallbackRecord>,
}

/// The value of the whole capture state.
pub struct OAuthModel {
    /// The current listener, if one was started and not stopped.
    pub server: Option<ServerModel>,
    /// The record that a deep link has left and that was not yet handed out.
    pub deep_link: Option<CallbackRecord>,
}

/// What holds of every state: a listener that still listens has captured
/// nothing, since the redirect that it captures is the last request it takes.
pub open spec fn model_wf(m: OAuthModel) -> bool {
    m.server matches Some(s) ==> !(s.listening && s.pending is Some)
}

/// The state before anything was started or received.
pub open spec fn model_initial() -> OAuthModel {
    OAuthModel { server: None, deep_link: None }
}

/// Starting a listener discards the current one and its pending record.
pub open spec fn model_start(m: OAuthModel, port: u16) -> OAuthModel {
    OAuthModel {
        server: Some(ServerModel { port, listening: true, pending: None }),
        deep_link: m.deep_link,
    }
}

/// Stopping discards the current listener, if there is one.
pub open spec fn model_stop(m: OAuthModel) -> OAuthModel {
    OAuthModel { server: None, deep_link: m.deep_link }
}

/// Whether a request can reach the current listener.
pub open spec fn model_accepts(m: OAuthModel) -> bool {
    m.server matches Some(s) && s.listening
}

/// The state after a parsed request has reached the current listener. Only the
/// redirect changes it: its record replaces the pending one and the listener
/// stops. A request that finds no listening listener changes nothing.
pub open spec fn model_request(m: OAuthModel, parts: Option<UrlPartsView>) -> OAuthModel {
    if model_accepts(m) && is_callback(parts) {
        OAuthModel {
            server: Some(
                ServerModel {
                    port: m.server->0.port,
                    listening: false,
                    pending: route_record(parts),
                },
            ),
            deep_link: m.deep_link,
        }
    } else {
        m
    }
}

/// Whether a parsed URL is the application's deep-link callback,
/// `whisperme://auth/callback`: the scheme `whisperme`, the host `auth` and
/// the path `/callback`, each exactly.
pub open spec fn is_deep_link_callback(parts: Option<UrlPartsView>) -> bool {
    parts matches Some(p) && p.scheme == "whisperme"@ && p.host == Some("auth"@) && p.path
        == "/callback"@
}

/// The state after a deep link was received: a matching one replaces the
/// pending deep-link record, any other is ignored.
pub open spec fn model_deep_link(m: OAuthModel, parts: Option<UrlPartsView>) -> OAuthModel {
    if is_deep_link_callback(parts) {
        OAuthModel { server: m.server, deep_link: Some(record_of_pairs(parts->0.query)) }
    } else {
        m
    }
}

/// What a poll hands out: the deep-link record if one is pending, else the
/// current listener's record, else nothing.
pub open spec fn model_polled(m: OAuthModel) -> Option<CallbackRecord> {
    if m.deep_link is Some {
        m.deep_link
    } else if m.server is Some {
        m.server->0.pending
    } else {
        None
    }
}

/// The state after a poll: the record that was handed out is gone.
pub open spec fn model_after_poll(m: OAuthModel) -> OAuthModel {
    if m.deep_link is Some {
        OAuthModel { server: m.server, deep_link: None }
    } else if m.server is Some {
        OAuthModel {
            server: Some(
                ServerModel {
                    port: m.server->0.port,
                    listening: m.server->0.listening,
                    pending: None,
                },
            ),
            deep_link: None,
        }
    } else {
        m
    }
}

/// The text that a poll hands over: the polled record as a JSON object.
pub open spec fn model_polled_json(m: OAuthModel) -> Option<Seq<char>> {
    match model_polled(m) {
        Some(record) => Some(json_object_text(record_members(record))),
        None => None,
    }
}

/// The reply to a request, where one is sent: a request that finds no
/// listening listener is refused and gets none.
pub open spec fn reply_matches(
    reply: Option<HttpReply>,
    m: OAuthModel,
    parts: Option<UrlPartsView>,
) -> bool {
    if model_accepts(m) {
        &&& reply matches Some(r)
        &&& r.status == route_status(parts)
        &&& r.html == is_callback(parts)
        &&& r.body@ == route_body(parts)
    } else {
        reply is None
    }
}

/// The loopback listener that was started last.
#[derive(Debug)]
pub struct OAuthServer {
    port: u16,
    listening: bool,
    callback_data: CallbackSlot,
}

impl View for OAuthServer {
    type V = ServerModel;

    closed spec fn view(&self) -> ServerModel {
        ServerModel { port: self.port, listening: self.listening, pending: self.callback_data@ }
    }
}

/// The capture state: at most one listener, and the deep-link slot.
#[derive(Debug)]
pub struct OAuthState {
    server: Option<OAuthServer>,
    deep_link: CallbackSlot,
}

impl View for OAuthState {
    type V = OAuthModel;

    closed spec fn view(&self) -> OAuthModel {
        OAuthModel {
            server: match self.server {
                Some(s) => Some(s@),
                None => None,
            },
            deep_link: self.deep_link@,
        }
    }
}

impl OAuthState {
    #[verifier::type_invariant]
    spec fn well_formed(&self) -> bool {
        model_wf(self@)
    }

    /// The state at process start: no listener, nothing pending.
    pub fn new() -> (state: OAuthState)
        ensures
            state@ == model_initial(),
            model_wf(state@),
    {
        OAuthState { server: None, deep_link: CallbackSlot::new() }
    }

    /// Whether a listener was started and not stopped since.
    pub fn is_running(&self) -> (running: bool)
        ensures
            running == (self@.server is Some),
    {
        self.server.is_some()
    }

    /// The port of the current listener while its accept loop runs.
    pub fn listening_port(&self) -> (port: Option<u16>)
        ensures
            port == if model_accepts(self@) {
                Some(self@.server->0.port)
            } else {
                None
            },
    {
        match &self.server {
            Some(s) => {
                if s.listening {
                    Some(s.port)
                } else {
                    None
                }
            },
            None => None,
        }
    }

    /// Starts a listener on `port`, replacing the current one. The old
    /// listener and whatever it had captured are discarded.
    pub fn start_oauth_server(&mut self, port: u16) -> (started: Result<(), String>)
        ensures
            started is Ok,
            final(self)@ == model_start(old(self)@, port),
            model_wf(old(self)@) && model_wf(final(self)@),
    {
        proof {
            use_type_invariant(&*self);
        }
        self.server = Some(
            OAuthServer { port, listening: true, callback_data: CallbackSlot::new() },
        );
        Ok(())
    }

    /// Discards the current listener. With none running this does nothing.
    pub fn stop_oauth_server(&mut self) -> (stopped: Result<(), String>)
        ensures
            stopped is Ok,
            final(self)@ == model_stop(old(self)@),
            model_wf(old(self)@) && model_wf(final(self)@),
    {
        proof {
            use_type_invariant(&*self);
        }
        self.server = None;
        Ok(())
    }

    /// Lets a request, whose URL has been parsed or has failed to parse, reach
    /// the current listener.
    pub fn handle_parsed_request(&mut self, parsed: Option<UrlParts>) -> (reply: Option<HttpReply>)
        ensures
            final(self)@ == model_request(old(self)@, parts_view(parsed)),
            model_wf(old(self)@) && model_wf(final(self)@),
            reply_matches(reply, old(self)@, parts_view(parsed)),
    {
        proof {
            use_type_invariant(&*self);
        }
        let port = match self.listening_port() {
            Some(p) => p,
            None => {
                return None;
            },
        };
        let out = route_parsed(parsed);
        match out.record {
            Some(record) => {
                let mut slot = CallbackSlot::new();
                slot.put(record);
                self.server = Some(OAuthServer { port, listening: false, callback_data: slot });
            },
            None => {},
        }
        Some(out.reply)
    }

    /// Lets one request reach the current listener. `request_url` is the
    /// request line's target, a path with an optional query string.
    pub fn handle_request(&mut self, request_url: &str) -> (reply: Option<HttpReply>)
        ensures
            model_accepts(old(self)@) ==> {
                let parts = url_parse_result(
                    loopback_url(old(self)@.server->0.port, request_url@),
                );
                &&& final(self)@ == model_request(old(self)@, parts)
                &&& reply_matches(reply, old(self)@, parts)
            },
            !model_accepts(old(self)@) ==> final(self)@ == old(self)@ && reply is None,
            model_wf(old(self)@) && model_wf(final(self)@),
    {
        proof {
            use_type_invariant(&*self);
        }
        match self.listening_port() {
            Some(port) => {
                let url = crate::listener::full_request_url(port, request_url);
                self.handle_parsed_request(parse_url(url.as_str()))
            },
            None => None,
        }
    }

    /// Receives a deep link whose URL has been parsed or has failed to parse.
    pub fn accept_deep_link(&mut self, parsed: Option<UrlParts>)
        ensures
            final(self)@ == model_deep_link(old(self)@, parts_view(parsed)),
            model_wf(old(self)@) && model_wf(final(self)@),
    {
        proof {
            use_type_invariant(&*self);
        }
        match parsed {
            Some(parts) => {
                let host_matches = match &parts.host {
                    Some(host) => same_text(host.as_str(), "auth"),
                    None => false,
                };
                if same_text(parts.scheme.as_str(), "whisperme") && host_matches && same_text(
                    parts.path.as_str(),
                    "/callback",
                ) {
                    self.deep_link.put(CallbackData::from_query_pairs(&parts.query));
                }
            },
            None => {},
        }
    }

    /// Receives a deep link. A URL that does not parse, or that is not the
    /// application's callback, is ignored without an error.
    pub fn handle_deep_link(&mut self, url: &str) -> (handled: Result<(), String>)
        ensures
            handled is Ok,
            final(self)@ == model_deep_link(old(self)@, url_parse_result(url@)),
            model_wf(old(self)@) && model_wf(final(self)@),
    {
        proof {
            use_type_invariant(&*self);
        }
        self.accept_deep_link(parse_url(url));
        Ok(())
    }

    /// Takes the pending record out: the deep link's first, else the current
    /// listener's. Each record is handed out once.
    pub fn poll(&mut self) -> (taken: Option<CallbackData>)
        ensures
            record_view(taken) == model_polled(old(self)@),
            final(self)@ == model_after_poll(old(self)@),
            model_wf(old(self)@) && model_wf(final(self)@),
    {
        proof {
            use_type_invariant(&*self);
        }
        let from_link = self.deep_link.take();
        if from_link.is_some() {
            return from_link;
        }
        let mut current: Option<OAuthServer> = None;
        core::mem::swap(&mut self.server, &mut current);
        match current {
            Some(mut server) => {
                let from_listener = server.callback_data.take();
                self.server = Some(server);
                from_listener
            },
            None => None,
        }
    }

    /// Polls, and writes the record that came out as a JSON object with the
    /// members `code`, `state` and `error`. Nothing pending is no error.
    pub fn get_oauth_callback(&mut self) -> (polled: Result<Option<String>, String>)
        ensures
            polled is Ok,
            polled->Ok_0.deep_view() == model_polled_json(old(self)@),
            final(self)@ == model_after_poll(old(self)@),
            model_wf(old(self)@) && model_wf(final(self)@),
    {
        proof {
            use_type_invariant(&*self);
        }
        match self.poll() {
            Some(record) => Ok(Some(record.to_json())),
            None => Ok(None),
        }
    }
}

/// Event-based listening is not offered: the consumer polls. This accepts the
/// request and does nothing.
pub fn listen_oauth_callback() -> (listening: Result<(), String>)
    ensures
        listening is Ok,
{
    Ok(())
}

} // verus!
