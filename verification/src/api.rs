//! The agent API over a project file: which request goes where, and the
//! workflow of each request from its outcomes to the HTTP answer. The
//! project file on disk is the only shared state; every request reads or
//! writes it.

use vstd::prelude::*;
use vstd::string::*;

use crate::text::{
    debug_escape, debug_escaped, debug_quote, debug_text, lemma_verbatim_escapes_to_itself,
    prints_verbatim, same_text, simply_escaped,
};

verus! {

/// The request methods that the API tells apart.
#[derive(Clone, Copy, Debug, PartialEq, Eq)]
pub enum HttpMethod {
    Get,
    Post,
    /// Any other method.
    Other,
}

/// What a request asks for.
#[derive(Clone, Copy, Debug, PartialEq, Eq)]
pub enum Route {
    /// `GET /project`: the project document.
    GetProject,
    /// `POST /project`: replace the project with the request body.
    PostProject,
    /// `POST /script`: edit the project with the script in the body.
    PostScript,
    /// `GET /status`: a short summary of the project.
    GetStatus,
    /// Anything else.
    NotFound,
}

/// The route of a request; `POST /script` exists only where scripting is
/// built in.
pub open spec fn route_of(method: HttpMethod, url: Seq<char>, scripting: bool) -> Route {
    if method == HttpMethod::Get && url == "/project"@ {
        Route::GetProject
    } else if method == HttpMethod::Post && url == "/project"@ {
        Route::PostProject
    } else if scripting && method == HttpMethod::Post && url == "/script"@ {
        Route::PostScript
    } else if method == HttpMethod::Get && url == "/status"@ {
        Route::GetStatus
    } else {
        Route::NotFound
    }
}

/// The route of a request for `url` with `method`.
pub fn route(method: HttpMethod, url: &str, scripting: bool) -> (r: Route)
    ensures
        r == route_of(method, url@, scripting),
        method == HttpMethod::Get && url@ == "/project"@ ==> r == Route::GetProject,
        method == HttpMethod::Post && url@ == "/project"@ ==> r == Route::PostProject,
        method == HttpMethod::Get && url@ == "/status"@ ==> r == Route::GetStatus,
        method == HttpMethod::Post && url@ == "/script"@ ==> (r == Route::PostScript <==> scripting),
        r == Route::NotFound <==> !(method == HttpMethod::Get && (url@ == "/project"@ || url@
            == "/status"@) || method == HttpMethod::Post && (url@ == "/project"@ || scripting && url@
            == "/script"@)),
{
    proof {
        reveal_strlit("/project");
        reveal_strlit("/script");
        reveal_strlit("/status");
        assert("/project"@ != "/script"@ && "/project"@ != "/status"@ && "/script"@ != "/status"@) by {
            assert("/project"@.len() != "/script"@.len());
            assert("/project"@.len() != "/status"@.len());
            assert("/script"@[2] != "/status"@[2]);
        }
    }
    let is_project = same_text(url, "/project");
    let is_script = same_text(url, "/script");
    let is_status = same_text(url, "/status");
    match method {
        HttpMethod::Get => {
            if is_project {
                Route::GetProject
            } else if is_status {
                Route::GetStatus
            } else {
                Route::NotFound
            }
        },
        HttpMethod::Post => {
            if is_project {
                Route::PostProject
            } else if scripting && is_script {
                Route::PostScript
            } else {
                Route::NotFound
            }
        },
        HttpMethod::Other => Route::NotFound,
    }
}

/// The JSON body of an error answer: `{"error":<message as {:?} prints it>}`.
pub open spec fn error_body(message: Seq<char>) -> Seq<char> {
    "{\"error\":"@ + debug_text(message) + "}"@
}

/// How a JSON string writes one character of printable text, newline,
/// carriage return or tab: `"` and `\\` preceded by a backslash, the three
/// control characters as `\n`, `\r`, `\t`, anything else as it is.
pub open spec fn json_escape(c: char) -> Seq<char> {
    if c == '"' || c == '\\' {
        seq!['\\', c]
    } else if c == '\n' {
        seq!['\\', 'n']
    } else if c == '\r' {
        seq!['\\', 'r']
    } else if c == '\t' {
        seq!['\\', 't']
    } else {
        seq![c]
    }
}

/// The characters of a JSON string literal holding `s`, between its quotes.
pub open spec fn json_escaped(s: Seq<char>) -> Seq<char>
    decreases s.len(),
{
    if s.len() == 0 {
        Seq::empty()
    } else {
        json_escaped(s.drop_last()) + json_escape(s.last())
    }
}

/// The JSON text of the object `{"error": message}`.
pub open spec fn json_error_object(message: Seq<char>) -> Seq<char> {
    "{\"error\":\""@ + json_escaped(message) + "\"}"@
}

proof fn lemma_debug_escaping_is_json_escaping(s: Seq<char>)
    ensures
        debug_escaped(s) == json_escaped(s),
    decreases s.len(),
{
    if s.len() > 0 {
        lemma_debug_escaping_is_json_escaping(s.drop_last());
        assert(debug_escape(s.last()) == json_escape(s.last()));
    }
}

/// An error body, for a message of printable ASCII or Latin text, newlines, carriage
/// returns and tabs, is the JSON object `{"error": message}`.
pub proof fn lemma_error_body_is_json(message: Seq<char>, body: Seq<char>)
    requires
        simply_escaped(message),
        body == "{\"error\":"@ + (seq!['"'] + debug_escaped(message) + seq!['"']) + "}"@,
    ensures
        body == json_error_object(message),
{
    lemma_debug_escaping_is_json_escaping(message);
    reveal_strlit("{\"error\":");
    reveal_strlit("}");
    reveal_strlit("{\"error\":\"");
    reveal_strlit("\"}");
    assert(body =~= json_error_object(message));
}

/// The JSON body of a successful write.
pub open spec fn ok_body() -> Seq<char> {
    "{\"ok\":true}"@
}

/// The JSON body of an unknown request.
pub open spec fn not_found_body() -> Seq<char> {
    "{\"error\":\"not found\"}"@
}

/// The JSON body of an error answer for `message`.
pub fn error_json(message: &str) -> (body: String)
    ensures
        body@ == error_body(message@),
        simply_escaped(message@) ==> body@ == json_error_object(message@),
        prints_verbatim(message@) ==> body@ == "{\"error\":\""@ + message@ + "\"}"@,
{
    let mut s = String::from_str("{\"error\":");
    let quoted = debug_quote(message);
    s.append(quoted.as_str());
    s.append("}");
    proof {
        reveal_strlit("{\"error\":");
        reveal_strlit("}");
    }
    assert(s@ =~= error_body(message@));
    proof {
        if simply_escaped(message@) {
            lemma_error_body_is_json(message@, s@);
        }
        if prints_verbatim(message@) {
            lemma_verbatim_escapes_to_itself(message@);
            lemma_error_body_is_json(message@, s@);
            lemma_debug_escaping_is_json_escaping(message@);
            reveal_strlit("{\"error\":\"");
            reveal_strlit("\"}");
            assert(s@ =~= "{\"error\":\""@ + message@ + "\"}"@);
        }
    }
    s
}

/// What the caller must do next for a request.
#[derive(Debug, PartialEq, Eq)]
pub enum ApiAction {
    /// Read the project file and parse it as a project; report it as JSON
    /// (`Loaded`) or why that failed (`LoadFailed`).
    LoadProject,
    /// Read and parse the project file and report its summary as JSON
    /// (`Loaded`: engine, version, title, duration, scene count) or why
    /// that failed (`LoadFailed`).
    LoadStatus,
    /// Parse the request body as a project; report it as JSON (`Parsed`)
    /// or why it is not one (`Invalid`).
    ParseBody,
    /// Run the request body as a script on this project (JSON) and
    /// validate what it returns; report the edited project as JSON
    /// (`Parsed`) or why that failed (`Invalid`).
    RunScript(String),
    /// Write this project JSON to the project file; report `Written` or
    /// `WriteFailed`.
    WriteProject(String),
    /// Answer with this status code and JSON body; the request is over.
    Respond(u16, String),
}

/// What the caller observed while doing the last action.
#[derive(Debug, PartialEq, Eq)]
pub enum ApiEvent {
    /// The request has just come in.
    Start,
    /// The project file was loaded; its JSON (or its summary, for a status
    /// request).
    Loaded(String),
    /// Loading the project file failed with this message.
    LoadFailed(String),
    /// The body (or the script's result) is a valid project; its JSON.
    Parsed(String),
    /// The body (or the script's result) is not a valid project, or the
    /// script failed; the message.
    Invalid(String),
    /// The project file was written.
    Written,
    /// Writing the project file failed with this message.
    WriteFailed(String),
}

/// Whether a request on `route` can take this outcome next.
pub open spec fn route_accepts(route: Route, event: ApiEvent) -> bool {
    match route {
        Route::GetProject | Route::GetStatus => event is Start || event is Loaded || event is LoadFailed,
        Route::PostProject => event is Start || event is Parsed || event is Invalid || event is Written
            || event is WriteFailed,
        Route::PostScript => event is Start || event is Loaded || event is LoadFailed
            || event is Parsed || event is Invalid || event is Written || event is WriteFailed,
        Route::NotFound => event is Start,
    }
}

/// Whether `action` answers `event` on `route`. Reads answer 200 with the
/// document or 500 when the file cannot be loaded. A posted project that
/// is not valid is refused with 400; a script whose project cannot be
/// loaded, that fails, or that returns an invalid project is refused with
/// 400; a valid result is written, and the write answers 200 `{"ok":true}`
/// or 500. Anything else is 404 `{"error":"not found"}`. Every error body
/// is `{"error":<message>}`.
pub open spec fn api_answers(route: Route, event: ApiEvent, action: ApiAction) -> bool {
    match (route, event) {
        (Route::GetProject, ApiEvent::Start) => action == ApiAction::LoadProject,
        (Route::GetStatus, ApiEvent::Start) => action == ApiAction::LoadStatus,
        (Route::PostProject, ApiEvent::Start) => action == ApiAction::ParseBody,
        (Route::PostScript, ApiEvent::Start) => action == ApiAction::LoadProject,
        (Route::NotFound, ApiEvent::Start) => action matches ApiAction::Respond(code, body) && code
            == 404 && body@ == not_found_body(),
        (Route::PostScript, ApiEvent::Loaded(json)) => action == ApiAction::RunScript(json),
        (_, ApiEvent::Loaded(json)) => action == ApiAction::Respond(200, json),
        (Route::PostScript, ApiEvent::LoadFailed(e)) => error_answer(action, 400, e@),
        (_, ApiEvent::LoadFailed(e)) => error_answer(action, 500, e@),
        (_, ApiEvent::Parsed(json)) => action == ApiAction::WriteProject(json),
        (_, ApiEvent::Invalid(e)) => error_answer(action, 400, e@),
        (_, ApiEvent::Written) => action matches ApiAction::Respond(code, body) && code == 200
            && body@ == ok_body(),
        (_, ApiEvent::WriteFailed(e)) => error_answer(action, 500, e@),
    }
}

/// An error answer with status `status` for `message`: its body is
/// `{"error":<message as {:?} prints it>}`, which for a message of
/// printable ASCII or Latin text, newlines, carriage returns and tabs is the JSON
/// object `{"error": message}`.
pub open spec fn error_answer(action: ApiAction, status: u16, message: Seq<char>) -> bool {
    &&& action matches ApiAction::Respond(code, body)
    &&& code == status
    &&& body@ == error_body(message)
    &&& simply_escaped(message) ==> body@ == json_error_object(message)
}

/// A read answers with exactly what the project file holds, and a posted
/// project is written exactly as it was parsed: once the file gives back
/// what the last successful `POST /project` wrote, `GET /project` answers
/// 200 with that project.
pub proof fn lemma_get_returns_posted_project(
    json: String,
    write: ApiAction,
    written: ApiAction,
    read: ApiAction,
)
    requires
        api_answers(Route::PostProject, ApiEvent::Parsed(json), write),
        api_answers(Route::PostProject, ApiEvent::Written, written),
        api_answers(Route::GetProject, ApiEvent::Loaded(json), read),
    ensures
        write == ApiAction::WriteProject(json),
        written matches ApiAction::Respond(code, body) && code == 200 && body@ == ok_body(),
        read == ApiAction::Respond(200, json),
{
}

/// A refused project is never written: an invalid body or a failed script
/// answers 400 and the request ends there.
pub proof fn lemma_refused_project_not_written(route: Route, message: String, action: ApiAction)
    requires
        route == Route::PostProject || route == Route::PostScript,
        api_answers(route, ApiEvent::Invalid(message), action),
    ensures
        action matches ApiAction::Respond(code, body) && code == 400 && body@ == error_body(
            message@,
        ),
{
}

/// Every failure is answered with status 400 or 500 and, for a message of
/// printable ASCII or Latin text, newlines, carriage returns and tabs, a body that is the
/// JSON object `{"error": message}`.
pub proof fn lemma_failures_answer_json_errors(route: Route, event: ApiEvent, action: ApiAction)
    requires
        route_accepts(route, event),
        api_answers(route, event, action),
        event is LoadFailed || event is Invalid || event is WriteFailed,
    ensures
        action matches ApiAction::Respond(code, body) && (code == 400 || code == 500) && (
        match event {
            ApiEvent::LoadFailed(m) | ApiEvent::Invalid(m) | ApiEvent::WriteFailed(m) =>
                simply_escaped(m@) ==> body@ == json_error_object(m@),
            _ => true,
        }),
{
}

/// The status code of an answer, if the action is one.
pub open spec fn status_of(action: ApiAction) -> Option<u16> {
    match action {
        ApiAction::Respond(code, _) => Some(code),
        _ => None,
    }
}

/// Whether scripting is built in changes the route of `POST /script` and
/// of nothing else: the project and status requests are served either way.
pub proof fn lemma_scripting_only_adds_the_script_route(method: HttpMethod, url: Seq<char>)
    ensures
        route_of(method, url, true) != route_of(method, url, false) ==> method == HttpMethod::Post
            && url == "/script"@,
        route_of(HttpMethod::Get, "/status"@, true) == Route::GetStatus,
        route_of(HttpMethod::Get, "/status"@, false) == Route::GetStatus,
        route_of(HttpMethod::Get, "/project"@, true) == Route::GetProject,
        route_of(HttpMethod::Get, "/project"@, false) == Route::GetProject,
        route_of(HttpMethod::Post, "/project"@, true) == Route::PostProject,
        route_of(HttpMethod::Post, "/project"@, false) == Route::PostProject,
        route_of(HttpMethod::Post, "/script"@, false) == Route::NotFound,
{
    reveal_strlit("/project");
    reveal_strlit("/script");
    reveal_strlit("/status");
    assert("/project"@.len() != "/script"@.len());
    assert("/project"@.len() != "/status"@.len());
    assert("/script"@[2] != "/status"@[2]);
}

/// A failed write of the project file is the server's fault: on every
/// route it answers 500 with the error, never 400 and never success.
pub proof fn lemma_write_failures_answer_500(route: Route, message: String, action: ApiAction)
    requires
        route_accepts(route, ApiEvent::WriteFailed(message)),
        api_answers(route, ApiEvent::WriteFailed(message), action),
    ensures
        action matches ApiAction::Respond(code, body) && code == 500 && body@ == error_body(
            message@,
        ),
{
}

/// Status 400 blames the client: it answers only a body that is not a
/// valid project, a failed script, or (for a script) a project that could
/// not be loaded; a write is never answered 400.
pub proof fn lemma_client_errors(route: Route, event: ApiEvent, action: ApiAction)
    requires
        route_accepts(route, event),
        api_answers(route, event, action),
        action matches ApiAction::Respond(code, _) && code == 400,
    ensures
        event is Invalid || (event is LoadFailed && route == Route::PostScript),
{
}

/// Takes the outcome of the last action on a request for `route` and
/// gives the next action.
pub fn api_step(route: Route, event: ApiEvent) -> (action: ApiAction)
    requires
        route_accepts(route, event),
    ensures
        api_answers(route, event, action),
        event is WriteFailed ==> status_of(action) == Some(500u16),
        event is Invalid ==> status_of(action) == Some(400u16),
        event is LoadFailed ==> status_of(action) == Some(
            if route == Route::PostScript {
                400u16
            } else {
                500u16
            },
        ),
        event is Written ==> status_of(action) == Some(200u16),
        event matches ApiEvent::Parsed(json) ==> action == ApiAction::WriteProject(json),
        event matches ApiEvent::Loaded(json) ==> (route != Route::PostScript ==> action
            == ApiAction::Respond(200, json)),
        status_of(action) == Some(200u16) ==> event is Loaded || event is Written,
        status_of(action) == Some(404u16) ==> route == Route::NotFound,
{
    match event {
        ApiEvent::Start => match route {
            Route::GetProject => ApiAction::LoadProject,
            Route::GetStatus => ApiAction::LoadStatus,
            Route::PostProject => ApiAction::ParseBody,
            Route::PostScript => ApiAction::LoadProject,
            Route::NotFound => {
                let body = String::from_str("{\"error\":\"not found\"}");
                proof {
                    reveal_strlit("{\"error\":\"not found\"}");
                }
                ApiAction::Respond(404, body)
            },
        },
        ApiEvent::Loaded(json) => {
            if matches!(route, Route::PostScript) {
                ApiAction::RunScript(json)
            } else {
                ApiAction::Respond(200, json)
            }
        },
        ApiEvent::LoadFailed(e) => {
            let code: u16 = if matches!(route, Route::PostScript) { 400 } else { 500 };
            ApiAction::Respond(code, error_json(e.as_str()))
        },
        ApiEvent::Parsed(json) => ApiAction::WriteProject(json),
        ApiEvent::Invalid(e) => ApiAction::Respond(400, error_json(e.as_str())),
        ApiEvent::Written => {
            let body = String::from_str("{\"ok\":true}");
            proof {
                reveal_strlit("{\"ok\":true}");
            }
            ApiAction::Respond(200, body)
        },
        ApiEvent::WriteFailed(e) => ApiAction::Respond(500, error_json(e.as_str())),
    }
}

} // verus!
