//! The query side: which service a request path reaches, and the reply each
//! service gives.
use vstd::prelude::*;
use crate::codec::{decode_text_spec, event_object, events_json, json_object_text, render_logs, DecodeError};
use crate::event::LogView;
use crate::event::Log;
use crate::store::StoreError;
use crate::text::same_text;

verus! {

/// The service that a request path reaches.
#[derive(Clone, Copy, Debug, PartialEq, Eq, Structural)]
pub enum Route {
    /// `/hello`: a fixed greeting.
    Hello,
    /// `/logs`: every stored event as a JSON array.
    Logs,
    /// Any other path.
    NotFound,
}

/// A reply to an HTTP request: its status code and body.
pub struct Reply {
    pub status: u16,
    pub body: String,
}

/// The service for a request path. Only `/logs` and `/hello` are known.
pub fn route(path: &str) -> (r: Route)
    ensures
        r == (if path@ == "/logs"@ {
            Route::Logs
        } else if path@ == "/hello"@ {
            Route::Hello
        } else {
            Route::NotFound
        }),
{
    if same_text(path, "/logs") {
        Route::Logs
    } else if same_text(path, "/hello") {
        Route::Hello
    } else {
        Route::NotFound
    }
}

/// The reply to an unknown path.
pub fn not_found() -> (r: Reply)
    ensures
        r.status == 404,
        r.body@ == "Not Found"@,
{
    Reply { status: 404, body: String::from_str("Not Found") }
}

/// The reply of the greeting service.
pub fn hello() -> (r: Reply)
    ensures
        r.status == 200,
        r.body@ == "Hello World!"@,
{
    Reply { status: 200, body: String::from_str("Hello World!") }
}

/// The reply that carries rendered events, or says that rendering failed.
pub fn reply_for_rendered(rendered: Option<String>) -> (r: Reply)
    ensures
        match rendered {
            Some(s) => r.status == 200 && r.body@ == s@,
            None => r.status == 500 && r.body@ == "Error converting logs to JSON"@,
        },
{
    match rendered {
        Some(s) => Reply { status: 200, body: s },
        None => Reply { status: 500, body: String::from_str("Error converting logs to JSON") },
    }
}

/// The reply of the logs service to what the store returned: the events as
/// a JSON array with status 200, or an error text with status 500. Each
/// object of the array decodes back to the stored event in its place.
pub fn logs_reply(fetched: Result<Vec<Log>, StoreError>) -> (r: Reply)
    ensures
        match fetched {
            Ok(events) => {
                &&& r.status == 200
                &&& r.body@ == events_json(events@)
                &&& forall|i: int|
                    0 <= i < events@.len() ==> decode_text_spec(
                        #[trigger] json_object_text(event_object(events@[i]@)),
                    ) == Ok::<LogView, DecodeError>(events@[i]@)
            },
            Err(_) => r.status == 500 && r.body@ == "Error getting logs"@,
        },
{
    match fetched {
        Ok(events) => reply_for_rendered(Some(render_logs(&events))),
        Err(_) => Reply { status: 500, body: String::from_str("Error getting logs") },
    }
}

} // verus!
