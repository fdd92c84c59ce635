//! The HTTP control API: one request at a time against the device state.
//!
//! Each call of `Application::handle` is one whole transition of the state.
//! The server runs it with the state locked, so that a read-modify-write such
//! as `/increment` is never split by another worker's request.
use vstd::prelude::*;
use crate::bytes::{get_state as get_state_path, increment as increment_path, set_prefix};
use crate::form::{form_spec, parse_form, FormValue};
use crate::routing::{route, route_spec, set_segment, set_value, Method, Route};
use crate::urlenc::url_decoded;
use crate::state::{wrapping_inc, AppState, AppStateValue};

verus! {

/// Where a redirect points, relative to the request path.
#[derive(Clone, Copy, Debug, PartialEq, Eq, Structural)]
pub enum RedirectTarget {
    /// `.`: the directory of the request path.
    CurrentDirectory,
    /// `..`: the parent of that directory.
    ParentDirectory,
}

/// The response to a request.
#[derive(Clone, Copy, Debug, PartialEq, Eq, Structural)]
pub enum Response {
    /// The HTML page of the user interface.
    Html,
    /// The script of the user interface.
    Javascript,
    /// The stylesheet of the user interface.
    Css,
    Redirect(RedirectTarget),
    /// A JSON snapshot of the state.
    StateJson(AppStateValue),
    /// The JSON value `0`, acknowledging a configuration.
    Acknowledge,
    /// The body is not a valid configuration form.
    BadForm,
    MethodNotAllowed,
    NotFound,
}

/// The state after a request and the response to it.
pub open spec fn handle_spec(s: AppStateValue, method: Method, path: Seq<u8>, body: Seq<u8>) -> (
    AppStateValue,
    Response,
) {
    match route_spec(method, path) {
        Route::Index => (s, Response::Html),
        Route::ButtonsJs => (s, Response::Javascript),
        Route::StylesCss => (s, Response::Css),
        Route::Increment => (
            AppStateValue { setpoint_temp: wrapping_inc(s.setpoint_temp), ..s },
            Response::Redirect(RedirectTarget::CurrentDirectory),
        ),
        Route::SetTemperature(v) => (
            AppStateValue { setpoint_temp: v, ..s },
            Response::Redirect(RedirectTarget::ParentDirectory),
        ),
        Route::GetState => (s, Response::StateJson(s)),
        Route::SetConfig => match form_spec(body) {
            Some(f) => (
                AppStateValue { setpoint_temp: f.temperature, run_time_total: f.time, ..s },
                Response::Acknowledge,
            ),
            None => (s, Response::BadForm),
        },
        Route::MethodNotAllowed => (s, Response::MethodNotAllowed),
        Route::NotFound => (s, Response::NotFound),
    }
}

/// `GET /get_state`: the current snapshot.
pub fn get_state(state: &AppState) -> (r: Response)
    ensures
        r == Response::StateJson(state.view_value()),
{
    Response::StateJson(AppStateValue::from_ref(state))
}

/// `GET /set/{value}`: sets the setpoint and sends the client back up.
pub fn set_temperature(state: &mut AppState, value: i32) -> (r: Response)
    ensures
        final(state).view_value() == (AppStateValue { setpoint_temp: value, ..old(state).view_value() }),
        r == Response::Redirect(RedirectTarget::ParentDirectory),
{
    state.set_setpoint(value);
    Response::Redirect(RedirectTarget::ParentDirectory)
}

/// `GET /increment`: raises the setpoint by one.
pub fn increment(state: &mut AppState) -> (r: Response)
    ensures
        final(state).view_value() == (AppStateValue {
            setpoint_temp: wrapping_inc(old(state).setpoint_temp),
            ..old(state).view_value()
        }),
        r == Response::Redirect(RedirectTarget::CurrentDirectory),
{
    state.increment_setpoint();
    Response::Redirect(RedirectTarget::CurrentDirectory)
}

/// `POST /set_config`: takes the setpoint and the total run time from the form.
pub fn set_config(state: &mut AppState, form: FormValue) -> (r: Response)
    ensures
        final(state).view_value() == (AppStateValue {
            setpoint_temp: form.temperature,
            run_time_total: form.time,
            ..old(state).view_value()
        }),
        r == Response::Acknowledge,
{
    state.set_config(form.temperature, form.time);
    Response::Acknowledge
}

/// The control API together with the state it serves.
pub struct Application {
    pub state: AppState,
}

impl Application {
    /// The API over a fresh, all-zero state.
    pub fn build_app() -> (r: Application)
        ensures
            r.state.view_value() == (AppStateValue {
                current_temp: 0,
                setpoint_temp: 0,
                run_time_elapsed: 0,
                run_time_total: 0,
            }),
    {
        Application { state: AppState::new() }
    }

    /// Serves one request.
    pub fn handle(&mut self, method: Method, path: &[u8], body: &[u8]) -> (r: Response)
        ensures
            (final(self).state.view_value(), r) == handle_spec(
                old(self).state.view_value(),
                method,
                path@,
                body@,
            ),
    {
        match route(method, path) {
            Route::Index => Response::Html,
            Route::ButtonsJs => Response::Javascript,
            Route::StylesCss => Response::Css,
            Route::Increment => increment(&mut self.state),
            Route::SetTemperature(v) => set_temperature(&mut self.state, v),
            Route::GetState => get_state(&self.state),
            Route::SetConfig => match parse_form(body) {
                Some(f) => set_config(&mut self.state, f),
                None => Response::BadForm,
            },
            Route::MethodNotAllowed => Response::MethodNotAllowed,
            Route::NotFound => Response::NotFound,
        }
    }
}

} // verus!

verus! {

/// No path that `/set/{value}` matches is one of the fixed paths.
proof fn lemma_set_path_not_fixed(path: Seq<u8>)
    requires
        set_segment(path) is Some,
    ensures
        route_spec(Method::Get, path) == Route::SetTemperature(set_value(path)->0) || set_value(
            path,
        ) is None,
        set_value(path) is None ==> route_spec(Method::Get, path) == Route::NotFound,
{
    let p = path.subrange(0, 5);
    assert(p[1] == path[1] && p[4] == path[4]);
    assert(p =~= set_prefix());
    assert(path != crate::bytes::index());
    assert(path[1] != crate::bytes::buttons_js()[1]);
    assert(path[2] != crate::bytes::styles_css()[2]);
    assert(path[1] != crate::bytes::increment()[1]);
    assert(path[1] != crate::bytes::get_state()[1]);
    assert(path[4] != crate::bytes::set_config()[4]);
}

/// Reading the state changes nothing, so a second read with no write in
/// between returns the same snapshot as the first.
pub proof fn lemma_get_state_idempotent(s: AppStateValue, body1: Seq<u8>, body2: Seq<u8>)
    ensures
        handle_spec(s, Method::Get, get_state_path(), body1).0 == s,
        handle_spec(
            handle_spec(s, Method::Get, get_state_path(), body1).0,
            Method::Get,
            get_state_path(),
            body2,
        ).1 == handle_spec(s, Method::Get, get_state_path(), body1).1,
        handle_spec(s, Method::Get, get_state_path(), body1).1 == Response::StateJson(s),
{
    assert(get_state_path() != crate::bytes::index());
    assert(get_state_path()[1] != crate::bytes::buttons_js()[1]);
    assert(get_state_path()[1] != crate::bytes::styles_css()[1]);
    assert(get_state_path()[1] != crate::bytes::increment()[1]);
}

/// The state after `n` requests `GET /increment` in a row.
pub open spec fn after_increments(s: AppStateValue, n: nat) -> AppStateValue
    decreases n,
{
    if n == 0 {
        s
    } else {
        handle_spec(after_increments(s, (n - 1) as nat), Method::Get, increment_path(), Seq::empty()).0
    }
}

/// `n` increments raise the setpoint from `S` to `S + n` and touch nothing
/// else, wherever `S + n` stays within the `i32` range. Each increment is one
/// whole transition, so no interleaving of them loses one.
pub proof fn lemma_increments_accumulate(s: AppStateValue, n: nat)
    requires
        s.setpoint_temp + n <= i32::MAX,
    ensures
        after_increments(s, n).setpoint_temp == s.setpoint_temp + n,
        after_increments(s, n).current_temp == s.current_temp,
        after_increments(s, n).run_time_elapsed == s.run_time_elapsed,
        after_increments(s, n).run_time_total == s.run_time_total,
    decreases n,
{
    assert(increment_path().len() != crate::bytes::index().len());
    assert(increment_path()[1] != crate::bytes::buttons_js()[1]);
    assert(increment_path()[1] != crate::bytes::styles_css()[1]);
    if n > 0 {
        lemma_increments_accumulate(s, (n - 1) as nat);
    }
}

/// Of two `/set/{value}` requests in a row, the second decides the setpoint.
pub proof fn lemma_last_writer_wins(
    s: AppStateValue,
    first: Seq<u8>,
    second: Seq<u8>,
    body1: Seq<u8>,
    body2: Seq<u8>,
)
    requires
        set_value(first) is Some,
        set_value(second) is Some,
    ensures
        handle_spec(
            handle_spec(s, Method::Get, first, body1).0,
            Method::Get,
            second,
            body2,
        ).0 == (AppStateValue { setpoint_temp: set_value(second)->0, ..s }),
{
    lemma_set_path_not_fixed(first);
    lemma_set_path_not_fixed(second);
}

/// After a configuration form is accepted, a read reports its temperature as
/// the setpoint and its time as the total run time, the other values as before.
pub proof fn lemma_config_then_read(s: AppStateValue, body: Seq<u8>, body2: Seq<u8>)
    requires
        form_spec(body) is Some,
    ensures
        handle_spec(s, Method::Post, crate::bytes::set_config(), body).1 == Response::Acknowledge,
        handle_spec(
            handle_spec(s, Method::Post, crate::bytes::set_config(), body).0,
            Method::Get,
            get_state_path(),
            body2,
        ).1 == Response::StateJson(
            AppStateValue {
                current_temp: s.current_temp,
                setpoint_temp: form_spec(body)->0.temperature,
                run_time_elapsed: s.run_time_elapsed,
                run_time_total: form_spec(body)->0.time,
            },
        ),
{
    let c = crate::bytes::set_config();
    assert(c != crate::bytes::index());
    assert(c[1] != crate::bytes::buttons_js()[1]);
    assert(c[2] != crate::bytes::styles_css()[2]);
    assert(c[1] != crate::bytes::increment()[1]);
    assert(c[1] != crate::bytes::get_state()[1]);
    let t = handle_spec(s, Method::Post, c, body).0;
    lemma_get_state_idempotent(t, body2, body2);
}

/// A `/set/{value}` path whose segment is not an integer matches no route,
/// and the request leaves the state as it was.
pub proof fn lemma_malformed_set_rejected(
    s: AppStateValue,
    method: Method,
    path: Seq<u8>,
    body: Seq<u8>,
)
    requires
        set_segment(path) is Some,
        match url_decoded(set_segment(path)->0) {
            Some(d) => crate::decimal::parse_i32_spec(d) is None,
            None => true,
        },
    ensures
        route_spec(method, path) == Route::NotFound,
        handle_spec(s, method, path, body) == (s, Response::NotFound),
{
    lemma_set_path_not_fixed(path);
}

} // verus!

verus! {

/// A request as the server sees it: method, path and body.
pub type RequestSpec = (Method, Seq<u8>, Seq<u8>);

/// The state after serving `reqs` one after another.
pub open spec fn run_requests(s: AppStateValue, reqs: Seq<RequestSpec>) -> AppStateValue
    decreases reqs.len(),
{
    if reqs.len() == 0 {
        s
    } else {
        let r = reqs.last();
        handle_spec(run_requests(s, reqs.drop_last()), r.0, r.1, r.2).0
    }
}

pub open spec fn is_increment(r: RequestSpec) -> bool {
    r.0 == Method::Get && r.1 == increment_path()
}

/// A request that writes nothing.
pub open spec fn is_read_only(r: RequestSpec) -> bool {
    match route_spec(r.0, r.1) {
        Route::Increment | Route::SetTemperature(_) | Route::SetConfig => false,
        _ => true,
    }
}

pub open spec fn count_increments(reqs: Seq<RequestSpec>) -> nat
    decreases reqs.len(),
{
    if reqs.len() == 0 {
        0
    } else {
        count_increments(reqs.drop_last()) + if is_increment(reqs.last()) {
            1nat
        } else {
            0nat
        }
    }
}

proof fn lemma_count_le_len(reqs: Seq<RequestSpec>)
    ensures
        count_increments(reqs) <= reqs.len(),
    decreases reqs.len(),
{
    if reqs.len() > 0 {
        lemma_count_le_len(reqs.drop_last());
    }
}

/// Requests from several workers are served as whole transitions, in some
/// order. Whatever that order, `n` increments mixed with requests that write
/// nothing raise the setpoint from `S` to `S + n`: no increment is lost,
/// wherever `S + n` stays within the `i32` range.
pub proof fn lemma_interleaved_increments(s: AppStateValue, reqs: Seq<RequestSpec>)
    requires
        forall|i: int| 0 <= i < reqs.len() ==> is_increment(#[trigger] reqs[i]) || is_read_only(reqs[i]),
        s.setpoint_temp + count_increments(reqs) <= i32::MAX,
    ensures
        run_requests(s, reqs).setpoint_temp == s.setpoint_temp + count_increments(reqs),
        run_requests(s, reqs).current_temp == s.current_temp,
        run_requests(s, reqs).run_time_elapsed == s.run_time_elapsed,
        run_requests(s, reqs).run_time_total == s.run_time_total,
    decreases reqs.len(),
{
    if reqs.len() > 0 {
        let prev = reqs.drop_last();
        assert forall|i: int| 0 <= i < prev.len() implies is_increment(#[trigger] prev[i])
            || is_read_only(prev[i]) by {
            assert(prev[i] == reqs[i]);
        }
        lemma_count_le_len(prev);
        lemma_interleaved_increments(s, prev);
        let r = reqs.last();
        assert(is_increment(r) || is_read_only(r));
        assert(increment_path().len() != crate::bytes::index().len());
        assert(increment_path()[1] != crate::bytes::buttons_js()[1]);
        assert(increment_path()[1] != crate::bytes::styles_css()[1]);
    }
}

} // verus!
