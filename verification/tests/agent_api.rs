use dualcut_engine::api::{api_step, error_json, route, ApiAction, ApiEvent, HttpMethod, Route};
use dualcut_engine::clips::{clip_kind, ScriptClip};
use dualcut_engine::playback::{toggle, Playback};

#[test]
fn requests_route_by_method_and_exact_path() {
    assert_eq!(route(HttpMethod::Get, "/project", true), Route::GetProject);
    assert_eq!(route(HttpMethod::Post, "/project", true), Route::PostProject);
    assert_eq!(route(HttpMethod::Post, "/script", true), Route::PostScript);
    assert_eq!(route(HttpMethod::Get, "/status", true), Route::GetStatus);
    assert_eq!(route(HttpMethod::Get, "/script", true), Route::NotFound);
    assert_eq!(route(HttpMethod::Post, "/status", true), Route::NotFound);
    assert_eq!(route(HttpMethod::Other, "/project", true), Route::NotFound);
    assert_eq!(route(HttpMethod::Get, "/project?x=1", true), Route::NotFound);
    assert_eq!(route(HttpMethod::Get, "/", true), Route::NotFound);
}

#[test]
fn script_route_exists_only_with_scripting() {
    assert_eq!(route(HttpMethod::Post, "/script", false), Route::NotFound);
}

#[test]
fn unknown_request_answers_404() {
    assert_eq!(
        api_step(Route::NotFound, ApiEvent::Start),
        ApiAction::Respond(404, r#"{"error":"not found"}"#.to_string())
    );
}

#[test]
fn error_bodies_quote_the_message() {
    assert_eq!(error_json("boom"), r#"{"error":"boom"}"#);
    assert_eq!(error_json("say \"hi\""), r#"{"error":"say \"hi\""}"#);
    assert_eq!(error_json("a\nb"), r#"{"error":"a\nb"}"#);
    assert_eq!(error_json("it's"), r#"{"error":"it's"}"#);
    assert_eq!(error_json("a\tb\rc\\"), r#"{"error":"a\tb\rc\\"}"#);
}

#[test]
fn get_project_answers_the_file_or_500() {
    assert_eq!(api_step(Route::GetProject, ApiEvent::Start), ApiAction::LoadProject);
    assert_eq!(
        api_step(Route::GetProject, ApiEvent::Loaded("{\"scenes\":[]}".into())),
        ApiAction::Respond(200, "{\"scenes\":[]}".into())
    );
    assert_eq!(
        api_step(Route::GetProject, ApiEvent::LoadFailed("loading p.json".into())),
        ApiAction::Respond(500, r#"{"error":"loading p.json"}"#.into())
    );
}

#[test]
fn post_project_validates_then_writes() {
    assert_eq!(api_step(Route::PostProject, ApiEvent::Start), ApiAction::ParseBody);
    assert_eq!(
        api_step(Route::PostProject, ApiEvent::Parsed("{}".into())),
        ApiAction::WriteProject("{}".into())
    );
    assert_eq!(
        api_step(Route::PostProject, ApiEvent::Written),
        ApiAction::Respond(200, r#"{"ok":true}"#.into())
    );
    assert_eq!(
        api_step(Route::PostProject, ApiEvent::Invalid("missing field".into())),
        ApiAction::Respond(400, r#"{"error":"missing field"}"#.into())
    );
    assert_eq!(
        api_step(Route::PostProject, ApiEvent::WriteFailed("read-only".into())),
        ApiAction::Respond(500, r#"{"error":"read-only"}"#.into())
    );
}

#[test]
fn script_loads_runs_and_writes() {
    assert_eq!(api_step(Route::PostScript, ApiEvent::Start), ApiAction::LoadProject);
    assert_eq!(
        api_step(Route::PostScript, ApiEvent::Loaded("{\"a\":1}".into())),
        ApiAction::RunScript("{\"a\":1}".into())
    );
    assert_eq!(
        api_step(Route::PostScript, ApiEvent::Parsed("{\"a\":2}".into())),
        ApiAction::WriteProject("{\"a\":2}".into())
    );
    assert_eq!(
        api_step(Route::PostScript, ApiEvent::Written),
        ApiAction::Respond(200, r#"{"ok":true}"#.into())
    );
}

#[test]
fn script_on_unloadable_project_is_a_400() {
    assert_eq!(
        api_step(Route::PostScript, ApiEvent::LoadFailed("loading p.json".into())),
        ApiAction::Respond(400, r#"{"error":"loading p.json"}"#.into())
    );
    assert_eq!(
        api_step(Route::PostScript, ApiEvent::Invalid("script returned invalid document".into())),
        ApiAction::Respond(400, r#"{"error":"script returned invalid document"}"#.into())
    );
}

#[test]
fn status_answers_the_summary_or_500() {
    assert_eq!(api_step(Route::GetStatus, ApiEvent::Start), ApiAction::LoadStatus);
    assert_eq!(
        api_step(Route::GetStatus, ApiEvent::Loaded("{\"engine\":\"dualcut\"}".into())),
        ApiAction::Respond(200, "{\"engine\":\"dualcut\"}".into())
    );
    assert_eq!(
        api_step(Route::GetStatus, ApiEvent::LoadFailed("x".into())),
        ApiAction::Respond(500, r#"{"error":"x"}"#.into())
    );
}

#[test]
fn get_after_post_returns_what_was_written() {
    let posted = "{\"meta\":{\"title\":\"t\"}}".to_string();
    let written = match api_step(Route::PostProject, ApiEvent::Parsed(posted.clone())) {
        ApiAction::WriteProject(json) => json,
        other => panic!("unexpected {other:?}"),
    };
    assert_eq!(
        api_step(Route::GetProject, ApiEvent::Loaded(written)),
        ApiAction::Respond(200, posted)
    );
}

#[test]
fn toggle_flips_state_and_icon() {
    assert_eq!(toggle(Playback::Paused), (Playback::Playing, "media-playback-pause-symbolic"));
    assert_eq!(toggle(Playback::Playing), (Playback::Paused, "media-playback-start-symbolic"));
    let (once, _) = toggle(Playback::Paused);
    assert_eq!(toggle(once).0, Playback::Paused);
}

#[test]
fn script_clip_kinds() {
    assert_eq!(clip_kind(Some("title")), ScriptClip::Title);
    assert_eq!(clip_kind(Some("test")), ScriptClip::Test);
    assert_eq!(clip_kind(Some("Title")), ScriptClip::Test);
    assert_eq!(clip_kind(None), ScriptClip::Test);
}

#[test]
fn error_bodies_parse_as_json_objects() {
    for m in ["boom", "it's \"quoted\"", "tab\there", "cr\rlf\n", "back\\slash", ""] {
        let body = error_json(m);
        let parsed: serde_json::Value = serde_json::from_str(&body).expect("valid JSON");
        let mut expected = serde_json::Map::new();
        expected.insert("error".to_string(), serde_json::Value::String(m.to_string()));
        assert_eq!(parsed, serde_json::Value::Object(expected));
    }
}

#[test]
fn latin_letters_print_as_they_are() {
    for c in ('\u{a1}'..='\u{ac}').chain('\u{ae}'..='\u{24f}') {
        assert_eq!(format!("{:?}", c.to_string()), format!("\"{c}\""), "U+{:04X}", c as u32);
    }
}

#[test]
fn accented_error_messages_are_json_objects() {
    let m = "loading /home/zoë/Película \"final\".json";
    let body = error_json(m);
    assert_eq!(body, "{\"error\":\"loading /home/zoë/Película \\\"final\\\".json\"}");
    let parsed: serde_json::Value = serde_json::from_str(&body).expect("valid JSON");
    let mut expected = serde_json::Map::new();
    expected.insert("error".to_string(), serde_json::Value::String(m.to_string()));
    assert_eq!(parsed, serde_json::Value::Object(expected));
}
