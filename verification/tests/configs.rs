//! The configuration document: defaults on first use, immediate
//! write-back, round trips, and the interactive setup decisions.

use timeular_reader::config::ConfigDocument;
use timeular_reader::handler::clockify;
use timeular_reader::handler::example;
use timeular_reader::handler::hackaru;
use timeular_reader::handler::toggl;
use timeular_reader::handler::ApplyOutcome;
use timeular_reader::tracker::config::{get_timeular_config, update_timeular_config};

#[test]
fn empty_document() {
    let doc = ConfigDocument::new();
    assert_eq!(doc.timeular, None);
    assert_eq!(doc.toggl, None);
    assert_eq!(doc.clockify, None);
    assert_eq!(doc.hackaru, None);
    assert_eq!(doc.example, None);
}

#[test]
fn toggl_defaults_are_created_and_written_back() {
    let mut doc = ConfigDocument::new();
    let cfg = toggl::config::create_config(&mut doc);
    assert_eq!(cfg.base_url, "https://api.track.toggl.com");
    assert_eq!(cfg.time_entries_uri, "api/v9/workspaces/{workspace_id}/time_entries");
    assert_eq!(cfg.email, "");
    assert_eq!(cfg.password, "");
    assert_eq!(cfg.project_id, 0);
    assert_eq!(cfg.workspace_id, 0);
    assert_eq!(doc.toggl.as_ref(), Some(&cfg));
}

#[test]
fn toggl_round_trip() {
    let mut doc = ConfigDocument::new();
    let mut cfg = toggl::config::create_config(&mut doc);
    cfg.email = String::from("a@b.c");
    cfg.workspace_id = 42;
    toggl::config::update_config(&mut doc, &cfg);
    let read_back = toggl::config::create_config(&mut doc);
    assert_eq!(read_back, cfg);
}

#[test]
fn clockify_defaults_and_round_trip() {
    let mut doc = ConfigDocument::new();
    let mut cfg = clockify::config::create_config(&mut doc);
    assert_eq!(cfg.base_url, "https://app.clockify.me");
    assert_eq!(cfg.time_entries_uri, "/api/v1/workspaces/{workspace_id}/time-entries");
    assert_eq!(cfg.api_key, "");
    cfg.workspace_id = String::from("ws");
    clockify::config::update_config(&mut doc, &cfg);
    assert_eq!(clockify::config::create_config(&mut doc), cfg);
}

#[test]
fn hackaru_defaults_and_round_trip() {
    let mut doc = ConfigDocument::new();
    let mut cfg = hackaru::config::create_config(&mut doc);
    assert_eq!(cfg.hackaru_url, "");
    assert_eq!(cfg.activities_rel_url, "v1/activities");
    assert_eq!(cfg.project_id, 0);
    assert_eq!(cfg.cookies, "");
    cfg.hackaru_url = String::from("https://h.example");
    hackaru::config::update_config(&mut doc, &cfg);
    assert_eq!(hackaru::config::create_config(&mut doc), cfg);
}

#[test]
fn example_defaults_and_round_trip() {
    let mut doc = ConfigDocument::new();
    let mut cfg = example::config::create_config(&mut doc);
    assert_eq!(cfg.base_url, "https://api.example.com");
    assert_eq!(cfg.api_key, "");
    cfg.api_key = String::from("k");
    example::config::update_config(&mut doc, &cfg);
    assert_eq!(example::config::create_config(&mut doc), cfg);
}

#[test]
fn timeular_defaults_and_round_trip() {
    let mut doc = ConfigDocument::new();
    let mut cfg = get_timeular_config(&mut doc);
    assert_eq!(cfg.handler, "");
    assert_eq!(cfg.sides.len(), 8);
    for (i, s) in cfg.sides.iter().enumerate() {
        assert_eq!(s.side_num as usize, i + 1);
        assert_eq!(s.label, "");
        assert!(s.trackable);
    }
    assert!(doc.timeular.is_some());
    cfg.handler = String::from("toggl");
    cfg.set_side(2, String::from("mail"));
    update_timeular_config(&mut doc, &cfg);
    assert_eq!(get_timeular_config(&mut doc), cfg);
}

#[test]
fn updating_one_key_leaves_the_others() {
    let mut doc = ConfigDocument::new();
    let t = toggl::config::create_config(&mut doc);
    let h = hackaru::config::create_config(&mut doc);
    let mut t2 = t.clone();
    t2.project_id = 9;
    toggl::config::update_config(&mut doc, &t2);
    assert_eq!(doc.hackaru.as_ref(), Some(&h));
    assert_eq!(doc.toggl.as_ref(), Some(&t2));
}

#[test]
fn toggl_prompts_for_missing_fields_only() {
    let mut doc = ConfigDocument::new();
    let mut cfg = toggl::config::create_config(&mut doc);
    assert!(toggl::field_needs_prompt(&cfg, false, toggl::TogglField::WorkspaceId));
    assert!(toggl::field_needs_prompt(&cfg, false, toggl::TogglField::Email));
    cfg.workspace_id = 42;
    cfg.email = String::from("a@b.c");
    assert!(!toggl::field_needs_prompt(&cfg, false, toggl::TogglField::WorkspaceId));
    assert!(!toggl::field_needs_prompt(&cfg, false, toggl::TogglField::Email));
    assert!(toggl::field_needs_prompt(&cfg, false, toggl::TogglField::ProjectId));
    assert!(toggl::field_needs_prompt(&cfg, false, toggl::TogglField::Password));
    // Forced setup always prompts.
    assert!(toggl::field_needs_prompt(&cfg, true, toggl::TogglField::WorkspaceId));
}

#[test]
fn toggl_apply_field_outcomes() {
    let mut doc = ConfigDocument::new();
    let mut cfg = toggl::config::create_config(&mut doc);

    // A blank answer keeps the value and writes nothing.
    let before = doc.toggl.clone();
    let r = toggl::apply_field(&mut doc, &mut cfg, toggl::TogglField::WorkspaceId, "  \n");
    assert_eq!(r, ApplyOutcome::Kept);
    assert_eq!(cfg.workspace_id, 0);
    assert_eq!(doc.toggl, before);

    // A numeric answer is trimmed, parsed, stored, and written back.
    let r = toggl::apply_field(&mut doc, &mut cfg, toggl::TogglField::WorkspaceId, " 42 \n");
    assert_eq!(r, ApplyOutcome::Updated);
    assert_eq!(cfg.workspace_id, 42);
    assert_eq!(doc.toggl.as_ref(), Some(&cfg));

    // A non-numeric answer for a numeric field changes nothing.
    let r = toggl::apply_field(&mut doc, &mut cfg, toggl::TogglField::ProjectId, "abc");
    assert_eq!(r, ApplyOutcome::Invalid);
    assert_eq!(cfg.project_id, 0);

    // Text fields take the trimmed answer as is.
    let r = toggl::apply_field(&mut doc, &mut cfg, toggl::TogglField::Password, " hunter2 ");
    assert_eq!(r, ApplyOutcome::Updated);
    assert_eq!(cfg.password, "hunter2");
    assert_eq!(doc.toggl.as_ref(), Some(&cfg));
}

#[test]
fn hackaru_apply_field_outcomes() {
    let mut doc = ConfigDocument::new();
    let mut cfg = hackaru::config::create_config(&mut doc);
    let r = hackaru::apply_field(&mut doc, &mut cfg, hackaru::HackaruField::Url, " https://h.example \n");
    assert_eq!(r, ApplyOutcome::Updated);
    assert_eq!(cfg.hackaru_url, "https://h.example");
    let r = hackaru::apply_field(&mut doc, &mut cfg, hackaru::HackaruField::ProjectId, "12x");
    assert_eq!(r, ApplyOutcome::Invalid);
    let r = hackaru::apply_field(&mut doc, &mut cfg, hackaru::HackaruField::ProjectId, "12");
    assert_eq!(r, ApplyOutcome::Updated);
    assert_eq!(cfg.project_id, 12);
    assert_eq!(doc.hackaru.as_ref(), Some(&cfg));
}

#[test]
fn clockify_and_example_apply_field() {
    let mut doc = ConfigDocument::new();
    let mut ccfg = clockify::config::create_config(&mut doc);
    let r = clockify::apply_field(&mut doc, &mut ccfg, clockify::ClockifyField::ApiKey, " key ");
    assert_eq!(r, ApplyOutcome::Updated);
    assert_eq!(ccfg.api_key, "key");
    assert_eq!(doc.clockify.as_ref(), Some(&ccfg));

    let mut ecfg = example::config::create_config(&mut doc);
    let r = example::apply_field(&mut doc, &mut ecfg, example::ExampleField::ApiKey, "");
    assert_eq!(r, ApplyOutcome::Kept);
    assert_eq!(ecfg.api_key, "");
}

#[test]
fn hackaru_cookies_are_stored_and_persisted() {
    let mut doc = ConfigDocument::new();
    let mut cfg = hackaru::config::create_config(&mut doc);
    hackaru::config::set_cookies(&mut doc, &mut cfg, String::from("[{\"name\":\"sid\"}]"));
    assert_eq!(cfg.cookies, "[{\"name\":\"sid\"}]");
    assert_eq!(doc.hackaru.as_ref(), Some(&cfg));
}
