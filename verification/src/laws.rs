//! What holds of the capture state whatever the order of events.

use vstd::prelude::*;
use crate::address::UrlPartsView;
use crate::callback::{last_value, record_of_pairs, CallbackRecord};
use crate::listener::{
    failure_page,
    is_callback,
    response_page,
    route_body,
    route_record,
    route_status,
    success_page,
};
use crate::oauth::{
    is_deep_link_callback,
    model_accepts,
    model_after_poll,
    model_deep_link,
    model_initial,
    model_polled,
    model_request,
    model_start,
    model_stop,
    model_wf,
    reply_matches,
    OAuthModel,
    ServerModel,
};

verus! {

/// The three names that a redirect's query is searched for differ from each other.
pub proof fn lemma_names_differ()
    ensures
        "code"@ != "state"@,
        "code"@ != "error"@,
        "state"@ != "error"@,
{
    reveal_strlit("code");
    reveal_strlit("state");
    reveal_strlit("error");
    assert("code"@.len() == 4);
    assert("state"@.len() == 5);
    assert("error"@.len() == 5);
    assert("state"@[0] == 's');
    assert("error"@[0] == 'e');
}

/// A query of a code and a state stands for the record of that code and that
/// state, without an error.
pub proof fn lemma_record_of_code_and_state(code: Seq<char>, state: Seq<char>)
    ensures
        record_of_pairs(seq![("code"@, code), ("state"@, state)]) == (CallbackRecord {
            code: Some(code),
            state: Some(state),
            error: None,
        }),
{
    lemma_names_differ();
    let pairs = seq![("code"@, code), ("state"@, state)];
    let first = seq![("code"@, code)];
    assert(pairs.drop_last() =~= first);
    assert(first.drop_last() =~= Seq::<(Seq<char>, Seq<char>)>::empty());
    assert(pairs.last() == ("state"@, state));
    assert(first.last() == ("code"@, code));
    reveal_with_fuel(last_value, 3);
}

/// A query of an error alone stands for the record of that error, without a
/// code or a state.
pub proof fn lemma_record_of_error(error: Seq<char>)
    ensures
        record_of_pairs(seq![("error"@, error)]) == (CallbackRecord {
            code: None,
            state: None,
            error: Some(error),
        }),
{
    lemma_names_differ();
    let pairs = seq![("error"@, error)];
    assert(pairs.drop_last() =~= Seq::<(Seq<char>, Seq<char>)>::empty());
    assert(pairs.last() == ("error"@, error));
    reveal_with_fuel(last_value, 2);
}

/// A redirect with a code and a state that reaches a listening listener is
/// handed out by the poller with that code and that state and no error: by the
/// next poll if no deep-link record is pending, else by the one after it. The
/// browser is shown the success page.
pub proof fn law_code_redirect_is_delivered(
    m: OAuthModel,
    parts: UrlPartsView,
    code: Seq<char>,
    state: Seq<char>,
)
    requires
        model_accepts(m),
        parts.path == "/callback"@,
        parts.query == seq![("code"@, code), ("state"@, state)],
    ensures
        ({
            let after = model_request(m, Some(parts));
            let record = CallbackRecord { code: Some(code), state: Some(state), error: None };
            &&& m.deep_link is None ==> model_polled(after) == Some(record)
            &&& m.deep_link is Some ==> model_polled(model_after_poll(after)) == Some(record)
            &&& route_status(Some(parts)) == 200
            &&& route_body(Some(parts)) == success_page()
        }),
{
    lemma_record_of_code_and_state(code, state);
}

/// A redirect with an error that reaches a listening listener is handed out by
/// the poller with that error and no code, and the browser is shown the
/// failure page.
pub proof fn law_error_redirect_is_delivered(m: OAuthModel, parts: UrlPartsView, error: Seq<char>)
    requires
        model_accepts(m),
        parts.path == "/callback"@,
        parts.query == seq![("error"@, error)],
    ensures
        ({
            let after = model_request(m, Some(parts));
            let record = CallbackRecord { code: None, state: None, error: Some(error) };
            &&& m.deep_link is None ==> model_polled(after) == Some(record)
            &&& m.deep_link is Some ==> model_polled(model_after_poll(after)) == Some(record)
            &&& route_status(Some(parts)) == 200
            &&& route_body(Some(parts)) == failure_page()
        }),
{
    lemma_record_of_error(error);
}

/// Whatever the query of the redirect, the record that reaches the poller is
/// the one that its pairs stand for, and the page follows from that record.
pub proof fn law_redirect_record_is_delivered(m: OAuthModel, parts: UrlPartsView)
    requires
        model_accepts(m),
        parts.path == "/callback"@,
    ensures
        ({
            let after = model_request(m, Some(parts));
            let record = record_of_pairs(parts.query);
            &&& m.deep_link is None ==> model_polled(after) == Some(record)
            &&& m.deep_link is Some ==> model_polled(model_after_poll(after)) == Some(record)
            &&& route_body(Some(parts)) == response_page(record)
        }),
{
}

/// A request to any path other than `/callback`, or one whose URL does not
/// parse, leaves the state as it was and is answered with status 404.
pub proof fn law_other_request_changes_nothing(m: OAuthModel, parts: Option<UrlPartsView>)
    requires
        !is_callback(parts),
    ensures
        model_request(m, parts) == m,
        route_record(parts) is None,
        route_status(parts) == 404,
        route_body(parts) == "Not Found"@,
{
}

/// Once the redirect has reached a listener, that listener takes no further
/// request: a later one is refused without a reply and changes nothing.
pub proof fn law_listener_serves_one_redirect(
    m: OAuthModel,
    hit: Option<UrlPartsView>,
    later: Option<UrlPartsView>,
)
    requires
        model_accepts(m),
        is_callback(hit),
    ensures
        !model_accepts(model_request(m, hit)),
        model_request(model_request(m, hit), later) == model_request(m, hit),
        reply_matches(None, model_request(m, hit), later),
{
}

/// A record is handed out once: when at most one record is pending, the poll
/// after the one that took it finds nothing; and whatever is pending, two
/// polls empty the state.
pub proof fn law_poll_hands_out_once(m: OAuthModel)
    ensures
        !(m.deep_link is Some && m.server is Some && m.server->0.pending is Some)
            ==> model_polled(model_after_poll(m)) is None,
        model_polled(model_after_poll(model_after_poll(m))) is None,
        model_polled(m) is None ==> model_after_poll(m) == m,
{
    if m.server is Some {
        let s = m.server->0;
        assert(s == ServerModel { port: s.port, listening: s.listening, pending: s.pending });
    }
}

/// After one redirect, with nothing else pending, the first poll returns its
/// record and the second returns nothing.
pub proof fn law_poll_twice_after_one_redirect(m: OAuthModel, parts: UrlPartsView)
    requires
        model_accepts(m),
        m.deep_link is None,
        parts.path == "/callback"@,
    ensures
        model_polled(model_request(m, Some(parts))) == Some(record_of_pairs(parts.query)),
        model_polled(model_after_poll(model_request(m, Some(parts)))) is None,
{
}

/// With a deep-link record and a loopback record both pending, the first poll
/// returns the deep link's and the second the listener's.
pub proof fn law_deep_link_goes_first(m: OAuthModel)
    requires
        m.deep_link is Some,
        m.server is Some,
        m.server->0.pending is Some,
    ensures
        model_polled(m) == m.deep_link,
        model_polled(model_after_poll(m)) == m.server->0.pending,
        model_polled(model_after_poll(model_after_poll(m))) is None,
{
}

/// Stopping and then starting on a port leaves a fresh listener on that port,
/// listening, with nothing captured; the deep-link slot is untouched. Stopping
/// twice is stopping once.
pub proof fn law_restart_gives_fresh_listener(m: OAuthModel, port: u16)
    ensures
        model_start(model_stop(m), port) == (OAuthModel {
            server: Some(ServerModel { port, listening: true, pending: None }),
            deep_link: m.deep_link,
        }),
        model_accepts(model_start(model_stop(m), port)),
        model_stop(model_stop(m)) == model_stop(m),
        model_start(model_stop(m), port) == model_start(m, port),
{
}

/// A deep link that does not parse, or whose scheme or path is not the
/// application's callback, leaves both slots as they were: on a state with
/// nothing pending the next poll finds nothing.
pub proof fn law_foreign_deep_link_is_ignored(m: OAuthModel, parts: Option<UrlPartsView>)
    requires
        !is_deep_link_callback(parts),
    ensures
        model_deep_link(m, parts) == m,
        model_polled(model_deep_link(model_initial(), parts)) is None,
        model_polled(m) is None ==> model_polled(model_deep_link(m, parts)) is None,
{
}

/// A listener that still listens has captured nothing: this holds at the
/// start and every event keeps it.
pub proof fn law_listening_listener_holds_nothing(
    m: OAuthModel,
    port: u16,
    parts: Option<UrlPartsView>,
)
    requires
        model_wf(m),
    ensures
        model_wf(model_initial()),
        model_wf(model_start(m, port)),
        model_wf(model_stop(m)),
        model_wf(model_request(m, parts)),
        model_wf(model_deep_link(m, parts)),
        model_wf(model_after_poll(m)),
{
}

/// A matching deep link replaces the pending deep-link record, and the next
/// poll returns the record of its query.
pub proof fn law_deep_link_is_delivered(m: OAuthModel, parts: UrlPartsView)
    requires
        is_deep_link_callback(Some(parts)),
    ensures
        model_polled(model_deep_link(m, Some(parts))) == Some(record_of_pairs(parts.query)),
        model_deep_link(m, Some(parts)).server == m.server,
{
}

} // verus!
