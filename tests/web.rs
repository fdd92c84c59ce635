use firmware::form::{parse_form, FormValue};
use firmware::routing::{route, Method, Route};
use firmware::state::AppStateValue;
use firmware::web::{Application, RedirectTarget, Response};

fn snapshot(app: &mut Application) -> AppStateValue {
    match app.handle(Method::Get, b"/get_state", b"") {
        Response::StateJson(v) => v,
        other => panic!("unexpected response {:?}", other),
    }
}

#[test]
fn fresh_state_is_zero() {
    let mut app = Application::build_app();
    let v = snapshot(&mut app);
    assert_eq!(v, AppStateValue { current_temp: 0, setpoint_temp: 0, run_time_elapsed: 0, run_time_total: 0 });
}

#[test]
fn get_state_twice_gives_same_snapshot() {
    let mut app = Application::build_app();
    app.handle(Method::Get, b"/set/42", b"");
    let a = snapshot(&mut app);
    let b = snapshot(&mut app);
    assert_eq!(a, b);
    assert_eq!(a.setpoint_temp, 42);
}

#[test]
fn increments_accumulate() {
    let mut app = Application::build_app();
    app.handle(Method::Get, b"/set/7", b"");
    for _ in 0..5 {
        let r = app.handle(Method::Get, b"/increment", b"");
        assert_eq!(r, Response::Redirect(RedirectTarget::CurrentDirectory));
    }
    assert_eq!(snapshot(&mut app).setpoint_temp, 12);
}

#[test]
fn increment_wraps_at_top_of_range() {
    let mut app = Application::build_app();
    app.handle(Method::Get, b"/set/2147483647", b"");
    app.handle(Method::Get, b"/increment", b"");
    assert_eq!(snapshot(&mut app).setpoint_temp, i32::MIN);
}

#[test]
fn last_set_wins() {
    let mut app = Application::build_app();
    let r = app.handle(Method::Get, b"/set/200", b"");
    assert_eq!(r, Response::Redirect(RedirectTarget::ParentDirectory));
    app.handle(Method::Get, b"/set/50", b"");
    assert_eq!(snapshot(&mut app).setpoint_temp, 50);
}

#[test]
fn form_update_then_read() {
    let mut app = Application::build_app();
    let r = app.handle(Method::Post, b"/set_config", b"temperature=350&time=600");
    assert_eq!(r, Response::Acknowledge);
    let v = snapshot(&mut app);
    assert_eq!(v, AppStateValue { current_temp: 0, setpoint_temp: 350, run_time_elapsed: 0, run_time_total: 600 });
}

#[test]
fn malformed_set_is_not_found_and_changes_nothing() {
    let mut app = Application::build_app();
    app.handle(Method::Get, b"/set/9", b"");
    let r = app.handle(Method::Get, b"/set/abc", b"");
    assert_eq!(r, Response::NotFound);
    assert_eq!(route(Method::Get, b"/set/abc"), Route::NotFound);
    assert_eq!(snapshot(&mut app).setpoint_temp, 9);
}

#[test]
fn set_path_edge_cases() {
    assert_eq!(route(Method::Get, b"/set/"), Route::NotFound);
    assert_eq!(route(Method::Get, b"/set/5/6"), Route::NotFound);
    assert_eq!(route(Method::Get, b"/set/-12"), Route::SetTemperature(-12));
    assert_eq!(route(Method::Get, b"/set/+3"), Route::NotFound);
    assert_eq!(route(Method::Get, b"/set/%2B3"), Route::SetTemperature(3));
    assert_eq!(route(Method::Get, b"/set/2147483648"), Route::NotFound);
    assert_eq!(route(Method::Get, b"/set/-2147483648"), Route::SetTemperature(i32::MIN));
    assert_eq!(route(Method::Post, b"/set/5"), Route::MethodNotAllowed);
}

#[test]
fn set_segment_is_percent_decoded() {
    assert_eq!(route(Method::Get, b"/set/%2D5"), Route::SetTemperature(-5));
    assert_eq!(route(Method::Get, b"/set/%3"), Route::NotFound);
}

#[test]
fn fixed_routes() {
    assert_eq!(route(Method::Get, b"/"), Route::Index);
    assert_eq!(route(Method::Get, b"/buttons.js"), Route::ButtonsJs);
    assert_eq!(route(Method::Get, b"/styles.css"), Route::StylesCss);
    assert_eq!(route(Method::Get, b"/get_state"), Route::GetState);
    assert_eq!(route(Method::Post, b"/set_config"), Route::SetConfig);
    assert_eq!(route(Method::Get, b"/set_config"), Route::MethodNotAllowed);
    assert_eq!(route(Method::Post, b"/increment"), Route::MethodNotAllowed);
    assert_eq!(route(Method::Get, b"/nothing"), Route::NotFound);
}

#[test]
fn static_assets_leave_state_alone() {
    let mut app = Application::build_app();
    app.handle(Method::Get, b"/set/3", b"");
    assert_eq!(app.handle(Method::Get, b"/", b""), Response::Html);
    assert_eq!(app.handle(Method::Get, b"/buttons.js", b""), Response::Javascript);
    assert_eq!(app.handle(Method::Get, b"/styles.css", b""), Response::Css);
    assert_eq!(snapshot(&mut app).setpoint_temp, 3);
}

#[test]
fn bad_form_changes_nothing() {
    let mut app = Application::build_app();
    let r = app.handle(Method::Post, b"/set_config", b"temperature=hot&time=600");
    assert_eq!(r, Response::BadForm);
    assert_eq!(snapshot(&mut app).run_time_total, 0);
}

#[test]
fn form_parsing() {
    assert_eq!(parse_form(b"temperature=350&time=600"), Some(FormValue { temperature: 350, time: 600 }));
    assert_eq!(parse_form(b"time=600&temperature=350"), Some(FormValue { temperature: 350, time: 600 }));
    assert_eq!(parse_form(b"&temperature=1&&time=2&"), Some(FormValue { temperature: 1, time: 2 }));
    assert_eq!(parse_form(b"temperature=1&time=2&mode=fast"), Some(FormValue { temperature: 1, time: 2 }));
    assert_eq!(parse_form(b"temperature=%33%35%30&time=-4"), Some(FormValue { temperature: 350, time: -4 }));
    assert_eq!(parse_form(b"temperature=1"), None);
    assert_eq!(parse_form(b""), None);
    assert_eq!(parse_form(b"temperature=1&time=2&time=3"), None);
    assert_eq!(parse_form(b"temperature&time=2"), None);
    assert_eq!(parse_form(b"temperature=1&time=99999999999"), None);
}

#[test]
fn increments_mixed_with_reads_are_all_counted() {
    let mut app = Application::build_app();
    app.handle(Method::Get, b"/set/100", b"");
    let requests: [&[u8]; 8] = [
        b"/increment", b"/get_state", b"/increment", b"/", b"/styles.css", b"/increment", b"/nope", b"/increment",
    ];
    for path in requests.iter() {
        app.handle(Method::Get, path, b"");
    }
    let v = snapshot(&mut app);
    assert_eq!(v.setpoint_temp, 104);
    assert_eq!(v.run_time_total, 0);
}

#[test]
fn ff_escape_is_not_found() {
    assert_eq!(route(Method::Get, b"/set/%FF"), Route::NotFound);
    assert_eq!(route(Method::Get, b"/set/%ff"), Route::NotFound);
    assert_eq!(route(Method::Get, b"/set/1%Ff"), Route::NotFound);
    let mut app = Application::build_app();
    assert_eq!(app.handle(Method::Get, b"/set/%fF", b""), Response::NotFound);
    assert_eq!(snapshot(&mut app).setpoint_temp, 0);
}

#[test]
fn ff_escape_in_form_is_bad_form() {
    assert_eq!(parse_form(b"temperature=%FF&time=2"), None);
    assert_eq!(parse_form(b"temperature=1&time=2&x%ff=3"), None);
    let mut app = Application::build_app();
    assert_eq!(app.handle(Method::Post, b"/set_config", b"temperature=1&time=%FF"), Response::BadForm);
    assert_eq!(snapshot(&mut app).run_time_total, 0);
}

#[test]
fn segment_longer_than_its_buffer_is_not_found() {
    let mut long = b"/set/".to_vec();
    long.extend(std::iter::repeat(b'0').take(127));
    long.push(b'7');
    assert_eq!(route(Method::Get, &long), Route::SetTemperature(7));
    long.insert(5, b'0');
    assert_eq!(route(Method::Get, &long), Route::NotFound);
}
