//! The Clockify handler: builds the API-key-authenticated time-entry
//! request for a completed interval, and decides the interactive setup.

pub mod config;

use crate::config::ConfigDocument;
use crate::handler::{
    format_rfc3339_secs_z, render_workspace_template, rendered_workspace, rfc3339_secs_z_of,
    workspace_template_renders, ApplyOutcome, MAX_RFC3339_SECS,
};
use crate::text::{
    spec_trim_end_slashes, spec_trim_slashes, spec_trim_spaces, trim_end_slashes, trim_slashes,
    trim_spaces,
};
use crate::tracker::config::Side;
use crate::tracker::reader::Interval;
use self::config::ClockifyConfig;
use vstd::prelude::*;

verus! {

/// One authenticated time-entry request, ready to be sent: a POST of `body`
/// to `url` under the `x-api-key` header.
#[derive(Debug, PartialEq)]
pub struct ClockifyRequest {
    pub url: String,
    pub body: String,
    pub api_key: String,
}

/// The documented JSON shape of one Clockify time entry.
pub open spec fn spec_body(
    project_id: Seq<char>,
    start: Seq<char>,
    end: Seq<char>,
    label: Seq<char>,
) -> Seq<char> {
    "{\n            \"projectId\": \""@ + project_id + "\",\n            \"start\": \""@ + start
        + "\",\n            \"end\": \""@ + end + "\",\n            \"description\": \""@ + label
        + "\"\n        }"@
}

/// Builds the JSON body for one time entry from already-rendered
/// timestamps.
pub fn build_body(config: &ClockifyConfig, label: &str, start: &str, end: &str) -> (r: String)
    ensures
        r@ == spec_body(config.project_id@, start@, end@, label@),
{
    let mut s = String::from_str("{\n            \"projectId\": \"");
    s.append(config.project_id.as_str());
    s.append("\",\n            \"start\": \"");
    s.append(start);
    s.append("\",\n            \"end\": \"");
    s.append(end);
    s.append("\",\n            \"description\": \"");
    s.append(label);
    s.append("\"\n        }");
    proof {
        assert(s@ =~= spec_body(config.project_id@, start@, end@, label@));
    }
    s
}

/// The full submission URL: the base URL without trailing slashes, then the
/// rendered time-entries path.
pub open spec fn spec_submit_url(c: ClockifyConfig) -> Seq<char> {
    spec_trim_end_slashes(c.base_url@) + "/"@ + rendered_workspace(
        spec_trim_slashes(c.time_entries_uri@),
        c.workspace_id@,
    )
}

/// Renders the time-entries path from its template; `None` exactly when
/// the configured template does not render.
pub fn time_entries_url(config: &ClockifyConfig) -> (r: Option<String>)
    ensures
        r matches Some(u) ==> u@ == rendered_workspace(
            spec_trim_slashes(config.time_entries_uri@),
            config.workspace_id@,
        ),
        r is Some <==> workspace_template_renders(
            spec_trim_slashes(config.time_entries_uri@),
            config.workspace_id@,
        ),
{
    let trimmed = trim_slashes(config.time_entries_uri.as_str());
    render_workspace_template(trimmed, config.workspace_id.as_str())
}

/// Builds the complete request for one completed interval: the documented
/// JSON body, the rendered URL and the configured API key.  A request is
/// owed whenever both timestamps are in the rendered range and the
/// configured URL template renders.
pub fn prepare_submit(config: &ClockifyConfig, side: &Side, interval: &Interval) -> (r: Option<
    ClockifyRequest,
>)
    ensures
        (0 <= interval.start <= MAX_RFC3339_SECS && 0 <= interval.end <= MAX_RFC3339_SECS
            && workspace_template_renders(
            spec_trim_slashes(config.time_entries_uri@),
            config.workspace_id@,
        )) ==> r is Some,
        r matches Some(req) ==> ({
            &&& req.url@ == spec_submit_url(*config)
            &&& req.body@ == spec_body(
                config.project_id@,
                rfc3339_secs_z_of(interval.start as int),
                rfc3339_secs_z_of(interval.end as int),
                side.label@,
            )
            &&& req.api_key == config.api_key
        }),
{
    let start = match format_rfc3339_secs_z(interval.start) {
        Some(s) => s,
        None => {
            return None;
        },
    };
    let end = match format_rfc3339_secs_z(interval.end) {
        Some(s) => s,
        None => {
            return None;
        },
    };
    let path = match time_entries_url(config) {
        Some(p) => p,
        None => {
            return None;
        },
    };
    let mut url = String::from_str(trim_end_slashes(config.base_url.as_str()));
    url.append("/");
    url.append(path.as_str());
    let body = build_body(config, side.label.as_str(), start.as_str(), end.as_str());
    proof {
        assert(url@ =~= spec_submit_url(*config));
    }
    Some(ClockifyRequest { url, body, api_key: config.api_key.clone() })
}

/// The fields interactive setup may prompt for, in prompt order.
#[derive(Clone, Copy, Debug, PartialEq, Eq, Structural)]
pub enum ClockifyField {
    WorkspaceId,
    ProjectId,
    ApiKey,
}

/// A field that has never been supplied.
pub open spec fn spec_field_missing(c: ClockifyConfig, f: ClockifyField) -> bool {
    match f {
        ClockifyField::WorkspaceId => c.workspace_id@.len() == 0,
        ClockifyField::ProjectId => c.project_id@.len() == 0,
        ClockifyField::ApiKey => c.api_key@.len() == 0,
    }
}

/// All fields other than `f` agree between `a` and `b`.
pub open spec fn spec_same_except(a: ClockifyConfig, b: ClockifyConfig, f: ClockifyField) -> bool {
    &&& a.base_url == b.base_url
    &&& a.time_entries_uri == b.time_entries_uri
    &&& (!(f is WorkspaceId) ==> a.workspace_id == b.workspace_id)
    &&& (!(f is ProjectId) ==> a.project_id == b.project_id)
    &&& (!(f is ApiKey) ==> a.api_key == b.api_key)
}

/// Field `f` of `c` holds the trimmed answer `t`.
pub open spec fn spec_field_set(c: ClockifyConfig, f: ClockifyField, t: Seq<char>) -> bool {
    match f {
        ClockifyField::WorkspaceId => c.workspace_id@ == t,
        ClockifyField::ProjectId => c.project_id@ == t,
        ClockifyField::ApiKey => c.api_key@ == t,
    }
}

/// Whether construction must prompt for `f`: always during forced setup,
/// otherwise only while the field has never been supplied.
pub fn field_needs_prompt(config: &ClockifyConfig, setup: bool, f: ClockifyField) -> (r: bool)
    ensures
        r == (setup || spec_field_missing(*config, f)),
{
    if setup {
        return true;
    }
    match f {
        ClockifyField::WorkspaceId => config.workspace_id.as_str().is_empty(),
        ClockifyField::ProjectId => config.project_id.as_str().is_empty(),
        ClockifyField::ApiKey => config.api_key.as_str().is_empty(),
    }
}

/// Applies one interactive answer for `f`.  A blank answer keeps the
/// current value; any other updates the field and writes the entry back to
/// the document at once.
pub fn apply_field(
    doc: &mut ConfigDocument,
    config: &mut ClockifyConfig,
    f: ClockifyField,
    answer: &str,
) -> (r: ApplyOutcome)
    ensures
        ({
            let t = spec_trim_spaces(answer@);
            if t.len() == 0 {
                r is Kept && *final(config) == *old(config) && *final(doc) == *old(doc)
            } else {
                &&& r is Updated
                &&& spec_same_except(*old(config), *final(config), f)
                &&& spec_field_set(*final(config), f, t)
                &&& *final(doc) == old(doc).with_clockify(*final(config))
            }
        }),
{
    let t = trim_spaces(answer);
    if t.is_empty() {
        return ApplyOutcome::Kept;
    }
    match f {
        ClockifyField::WorkspaceId => {
            config.workspace_id = t.to_owned();
        },
        ClockifyField::ProjectId => {
            config.project_id = t.to_owned();
        },
        ClockifyField::ApiKey => {
            config.api_key = t.to_owned();
        },
    }
    config::update_config(doc, config);
    ApplyOutcome::Updated
}

} // verus!
