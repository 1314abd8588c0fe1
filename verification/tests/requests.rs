//! The per-vendor request builders, run against the real template and
//! timestamp rendering.

use timeular_reader::handler::clockify;
use timeular_reader::handler::example;
use timeular_reader::handler::hackaru;
use timeular_reader::handler::toggl;
use timeular_reader::tracker::config::Side;
use timeular_reader::tracker::reader::Interval;

fn side(label: &str) -> Side {
    Side { side_num: 1, label: String::from(label), trackable: true }
}

fn interval(start: i64, end: i64) -> Interval {
    Interval { face: side("work"), start, end }
}

fn toggl_config() -> toggl::config::TogglConfig {
    let mut doc = timeular_reader::config::ConfigDocument::new();
    let mut cfg = toggl::config::create_config(&mut doc);
    cfg.email = String::from("a@b.c");
    cfg.password = String::from("secret");
    cfg.project_id = 7;
    cfg.workspace_id = 42;
    cfg
}

#[test]
fn toggl_renders_url_from_template() {
    let cfg = toggl_config();
    let url = toggl::time_entries_url(&cfg).expect("template renders");
    assert_eq!(url, "api/v9/workspaces/42/time_entries");
}

#[test]
fn toggl_builds_the_documented_request() {
    let cfg = toggl_config();
    let req = toggl::prepare_submit(&cfg, &side("work"), &interval(0, 10))
        .expect("request for in-range timestamps");
    assert_eq!(req.url, "https://api.track.toggl.com/api/v9/workspaces/42/time_entries");
    assert_eq!(req.email, "a@b.c");
    assert_eq!(req.password, "secret");
    let expected_body = "{\n            \"created_with\": \"timeular_reader\",\n            \"project_id\": 7,\n            \"start\": \"1970-01-01T00:00:00Z\",\n            \"stop\": \"1970-01-01T00:00:10Z\",\n            \"workspace_id\": 42,\n            \"description\": \"work\"\n        }";
    assert_eq!(req.body, expected_body);
}

#[test]
fn toggl_trims_extra_slashes() {
    let mut cfg = toggl_config();
    cfg.base_url = String::from("https://api.track.toggl.com///");
    cfg.time_entries_uri = String::from("/api/v9/workspaces/{workspace_id}/time_entries/");
    let req = toggl::prepare_submit(&cfg, &side("work"), &interval(0, 1)).unwrap();
    assert_eq!(req.url, "https://api.track.toggl.com/api/v9/workspaces/42/time_entries");
}

#[test]
fn toggl_unrenderable_template_yields_no_request() {
    let mut cfg = toggl_config();
    cfg.time_entries_uri = String::from("{{ unclosed");
    assert!(toggl::time_entries_url(&cfg).is_none());
    assert!(toggl::prepare_submit(&cfg, &side("work"), &interval(0, 1)).is_none());
}

#[test]
fn clockify_builds_the_documented_request() {
    let mut doc = timeular_reader::config::ConfigDocument::new();
    let mut cfg = clockify::config::create_config(&mut doc);
    cfg.api_key = String::from("k");
    cfg.project_id = String::from("p1");
    cfg.workspace_id = String::from("ws1");
    let req = clockify::prepare_submit(&cfg, &side("write"), &interval(60, 3600))
        .expect("request for in-range timestamps");
    assert_eq!(req.url, "https://app.clockify.me/api/v1/workspaces/ws1/time-entries");
    assert_eq!(req.api_key, "k");
    let expected_body = "{\n            \"projectId\": \"p1\",\n            \"start\": \"1970-01-01T00:01:00Z\",\n            \"end\": \"1970-01-01T01:00:00Z\",\n            \"description\": \"write\"\n        }";
    assert_eq!(req.body, expected_body);
}

fn hackaru_config() -> hackaru::config::HackaruConfig {
    let mut doc = timeular_reader::config::ConfigDocument::new();
    let mut cfg = hackaru::config::create_config(&mut doc);
    cfg.hackaru_url = String::from("https://h.example/");
    cfg.email = String::from("a@b.c");
    cfg.password = String::from("pw");
    cfg.project_id = 3;
    cfg
}

#[test]
fn hackaru_urls() {
    let cfg = hackaru_config();
    assert_eq!(hackaru::activities_url(&cfg), "https://h.example/v1/activities");
    assert_eq!(hackaru::activity_url(&cfg, 5), "https://h.example/v1/activities/5");
    assert_eq!(hackaru::auth_url(&cfg), "https://h.example/auth/auth_tokens");
}

#[test]
fn hackaru_two_phase_requests() {
    let cfg = hackaru_config();
    let iv = interval(0, 10);
    let start = hackaru::prepare_start(&cfg, &side("work"), &iv).expect("in range");
    assert_eq!(start.activity.description, "work");
    assert_eq!(start.activity.project_id, 3);
    assert_eq!(start.activity.started_at, "1970-01-01T00:00:00+00:00");
    let end = hackaru::prepare_end(17, &iv).expect("in range");
    assert_eq!(end.activity.id, 17);
    assert_eq!(end.activity.stopped_at, "1970-01-01T00:00:10+00:00");
}

#[test]
fn hackaru_login_request() {
    let cfg = hackaru_config();
    let login = hackaru::login_request(&cfg);
    assert_eq!(login.user.email, "a@b.c");
    assert_eq!(login.user.password, "pw");
}

#[test]
fn hackaru_request_constructors() {
    let start = hackaru::http_data::ActivityStartRequest::new(
        String::from("desc"),
        4,
        String::from("now"),
    );
    assert_eq!(start.activity.description, "desc");
    assert_eq!(start.activity.project_id, 4);
    assert_eq!(start.activity.started_at, "now");
    let end = hackaru::http_data::ActivityEndRequest::new(9, String::from("later"));
    assert_eq!(end.activity.id, 9);
    assert_eq!(end.activity.stopped_at, "later");
}

#[test]
fn out_of_range_timestamps_are_refused() {
    let cfg = hackaru_config();
    let iv = Interval { face: side("work"), start: i64::MAX, end: i64::MAX };
    assert!(hackaru::prepare_start(&cfg, &side("work"), &iv).is_none());
    assert!(hackaru::prepare_end(1, &iv).is_none());
}

#[test]
fn example_posts_to_trimmed_base_url() {
    let mut doc = timeular_reader::config::ConfigDocument::new();
    let mut cfg = example::config::create_config(&mut doc);
    cfg.base_url = String::from("https://api.example.com/");
    cfg.api_key = String::from("k");
    let req = example::prepare_submit(&cfg);
    assert_eq!(req.url, "https://api.example.com");
    assert_eq!(req.api_key, "k");
}
