//! The route table of the control API: which handler a method and a path reach.
use vstd::prelude::*;
use crate::bytes::{
    buttons_js, buttons_js_bytes, bytes_eq, find_byte, first_index, get_state, get_state_bytes,
    increment, increment_bytes, index, index_bytes, set_config, set_config_bytes, set_prefix,
    set_prefix_bytes, styles_css, styles_css_bytes, tail, copy_range,
};
use crate::decimal::{parse_i32, parse_i32_spec};
use crate::urlenc::{has_ff_escape, no_ff_escape, url_decode, url_decoded};

verus! {

#[derive(Clone, Copy, Debug, PartialEq, Eq, Structural)]
pub enum Method {
    Get,
    Post,
    Other,
}

/// Where a request goes.
#[derive(Clone, Copy, Debug, PartialEq, Eq, Structural)]
pub enum Route {
    Index,
    ButtonsJs,
    StylesCss,
    Increment,
    SetTemperature(i32),
    GetState,
    SetConfig,
    MethodNotAllowed,
    NotFound,
}

/// The single segment after `/set/`, if the path has that shape.
pub open spec fn set_segment(path: Seq<u8>) -> Option<Seq<u8>> {
    if path.len() > 5 && path.subrange(0, 5) == set_prefix() && first_index(tail(path, 5), 47u8)
        == path.len() - 5 {
        Some(tail(path, 5))
    } else {
        None
    }
}

/// Room for a decoded path segment.
pub const SEGMENT_CAPACITY: usize = 128;

/// The value that a `/set/{value}` path carries: the segment, decoded into at
/// most `SEGMENT_CAPACITY` bytes, read as an `i32`.
pub open spec fn set_value(path: Seq<u8>) -> Option<i32> {
    match set_segment(path) {
        Some(seg) => if no_ff_escape(seg) {
            match url_decoded(seg) {
                Some(d) => if d.len() <= SEGMENT_CAPACITY {
                    parse_i32_spec(d)
                } else {
                    None
                },
                None => None,
            }
        } else {
            None
        },
        None => None,
    }
}

pub open spec fn only(method: Method, wanted: Method, route: Route) -> Route {
    if method == wanted {
        route
    } else {
        Route::MethodNotAllowed
    }
}

pub open spec fn route_spec(method: Method, path: Seq<u8>) -> Route {
    if path == index() {
        only(method, Method::Get, Route::Index)
    } else if path == buttons_js() {
        only(method, Method::Get, Route::ButtonsJs)
    } else if path == styles_css() {
        only(method, Method::Get, Route::StylesCss)
    } else if path == increment() {
        only(method, Method::Get, Route::Increment)
    } else if path == get_state() {
        only(method, Method::Get, Route::GetState)
    } else if path == set_config() {
        only(method, Method::Post, Route::SetConfig)
    } else {
        match set_value(path) {
            Some(v) => only(method, Method::Get, Route::SetTemperature(v)),
            None => Route::NotFound,
        }
    }
}

fn only_exec(method: Method, wanted: Method, route: Route) -> (r: Route)
    ensures
        r == only(method, wanted, route),
{
    if method == wanted {
        route
    } else {
        Route::MethodNotAllowed
    }
}

/// Reads the value of a `/set/{value}` path.
pub fn parse_set_path(path: &[u8]) -> (r: Option<i32>)
    ensures
        r == set_value(path@),
{
    if path.len() <= 5 {
        return None;
    }
    let head = copy_range(path, 0, 5);
    let prefix = set_prefix_bytes();
    if !bytes_eq(&head, &prefix) {
        return None;
    }
    let slash = find_byte(path, 5, 47u8);
    if slash != path.len() {
        return None;
    }
    let seg = copy_range(path, 5, path.len());
    if has_ff_escape(&seg) {
        return None;
    }
    match url_decode(&seg) {
        Some(d) => if d.len() <= SEGMENT_CAPACITY {
            parse_i32(&d)
        } else {
            None
        },
        None => None,
    }
}

/// Finds the route of a request.
pub fn route(method: Method, path: &[u8]) -> (r: Route)
    ensures
        r == route_spec(method, path@),
{
    if bytes_eq(path, &index_bytes()) {
        only_exec(method, Method::Get, Route::Index)
    } else if bytes_eq(path, &buttons_js_bytes()) {
        only_exec(method, Method::Get, Route::ButtonsJs)
    } else if bytes_eq(path, &styles_css_bytes()) {
        only_exec(method, Method::Get, Route::StylesCss)
    } else if bytes_eq(path, &increment_bytes()) {
        only_exec(method, Method::Get, Route::Increment)
    } else if bytes_eq(path, &get_state_bytes()) {
        only_exec(method, Method::Get, Route::GetState)
    } else if bytes_eq(path, &set_config_bytes()) {
        only_exec(method, Method::Post, Route::SetConfig)
    } else {
        match parse_set_path(path) {
            Some(v) => only_exec(method, Method::Get, Route::SetTemperature(v)),
            None => Route::NotFound,
        }
    }
}

} // verus!
