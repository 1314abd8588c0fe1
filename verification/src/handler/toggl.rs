//! The Toggl handler: builds the authenticated time-entry request for a
//! completed interval, and decides the interactive credential setup.

pub mod config;

use crate::config::ConfigDocument;
use crate::handler::{
    format_rfc3339_secs_z, render_workspace_template, rendered_workspace, rfc3339_secs_z_of,
    workspace_template_renders, ApplyOutcome, MAX_RFC3339_SECS,
};
use crate::text::{
    all_digits, dec_str, dec_val, parse_u64, spec_trim_end_slashes, spec_trim_slashes,
    spec_trim_spaces, trim_end_slashes, trim_slashes, trim_spaces, u64_to_string,
};
use crate::tracker::config::Side;
use crate::tracker::reader::Interval;
use self::config::TogglConfig;
use vstd::prelude::*;

verus! {

/// One authenticated time-entry request, ready to be sent: a POST of `body`
/// to `url` under basic authentication.
#[derive(Debug, PartialEq)]
pub struct TogglRequest {
    pub url: String,
    pub body: String,
    pub email: String,
    pub password: String,
}

/// The documented JSON shape of one Toggl time entry.
pub open spec fn spec_body(
    project_id: int,
    start: Seq<char>,
    stop: Seq<char>,
    workspace_id: int,
    label: Seq<char>,
) -> Seq<char> {
    "{\n            \"created_with\": \"timeular_reader\",\n            \"project_id\": "@
        + dec_str(project_id) + ",\n            \"start\": \""@ + start
        + "\",\n            \"stop\": \""@ + stop + "\",\n            \"workspace_id\": "@
        + dec_str(workspace_id) + ",\n            \"description\": \""@ + label + "\"\n        }"@
}

/// Builds the JSON body for one time entry from already-rendered
/// timestamps.
pub fn build_body(config: &TogglConfig, label: &str, start: &str, stop: &str) -> (r: String)
    ensures
        r@ == spec_body(
            config.project_id as int,
            start@,
            stop@,
            config.workspace_id as int,
            label@,
        ),
{
    let pid = u64_to_string(config.project_id);
    let wid = u64_to_string(config.workspace_id);
    let mut s = String::from_str(
        "{\n            \"created_with\": \"timeular_reader\",\n            \"project_id\": ",
    );
    s.append(pid.as_str());
    s.append(",\n            \"start\": \"");
    s.append(start);
    s.append("\",\n            \"stop\": \"");
    s.append(stop);
    s.append("\",\n            \"workspace_id\": ");
    s.append(wid.as_str());
    s.append(",\n            \"description\": \"");
    s.append(label);
    s.append("\"\n        }");
    proof {
        assert(s@ =~= spec_body(
            config.project_id as int,
            start@,
            stop@,
            config.workspace_id as int,
            label@,
        ));
    }
    s
}

/// The full submission URL: the base URL without trailing slashes, then the
/// rendered time-entries path.
pub open spec fn spec_submit_url(c: TogglConfig) -> Seq<char> {
    spec_trim_end_slashes(c.base_url@) + "/"@ + rendered_workspace(
        spec_trim_slashes(c.time_entries_uri@),
        dec_str(c.workspace_id as int),
    )
}

/// Renders the time-entries path from its template; `None` exactly when
/// the configured template does not render.
pub fn time_entries_url(config: &TogglConfig) -> (r: Option<String>)
    ensures
        r matches Some(u) ==> u@ == rendered_workspace(
            spec_trim_slashes(config.time_entries_uri@),
            dec_str(config.workspace_id as int),
        ),
        r is Some <==> workspace_template_renders(
            spec_trim_slashes(config.time_entries_uri@),
            dec_str(config.workspace_id as int),
        ),
{
    let trimmed = trim_slashes(config.time_entries_uri.as_str());
    let wid = u64_to_string(config.workspace_id);
    render_workspace_template(trimmed, wid.as_str())
}

/// Builds the complete request for one completed interval: the documented
/// JSON body, the rendered URL and the configured credentials.  A request
/// is owed whenever both timestamps are in the rendered range and the
/// configured URL template renders.
pub fn prepare_submit(config: &TogglConfig, side: &Side, interval: &Interval) -> (r: Option<
    TogglRequest,
>)
    ensures
        (0 <= interval.start <= MAX_RFC3339_SECS && 0 <= interval.end <= MAX_RFC3339_SECS
            && workspace_template_renders(
            spec_trim_slashes(config.time_entries_uri@),
            dec_str(config.workspace_id as int),
        )) ==> r is Some,
        r matches Some(req) ==> ({
            &&& req.url@ == spec_submit_url(*config)
            &&& req.body@ == spec_body(
                config.project_id as int,
                rfc3339_secs_z_of(interval.start as int),
                rfc3339_secs_z_of(interval.end as int),
                config.workspace_id as int,
                side.label@,
            )
            &&& req.email == config.email
            &&& req.password == config.password
        }),
{
    let start = match format_rfc3339_secs_z(interval.start) {
        Some(s) => s,
        None => {
            return None;
        },
    };
    let stop = match format_rfc3339_secs_z(interval.end) {
        Some(s) => s,
        None => {
            return None;
        },
    };
    let path = match time_entries_url(config) {
        Some(p) => p,
        None => {
            return None;
        },
    };
    let mut url = String::from_str(trim_end_slashes(config.base_url.as_str()));
    url.append("/");
    url.append(path.as_str());
    let body = build_body(config, side.label.as_str(), start.as_str(), stop.as_str());
    proof {
        assert(url@ =~= spec_submit_url(*config));
    }
    Some(
        TogglRequest {
            url,
            body,
            email: config.email.clone(),
            password: config.password.clone(),
        },
    )
}

/// The fields interactive setup may prompt for, in prompt order.
#[derive(Clone, Copy, Debug, PartialEq, Eq, Structural)]
pub enum TogglField {
    WorkspaceId,
    ProjectId,
    Email,
    Password,
}

/// A field that has never been supplied: zero for the numeric ids, empty
/// for the credentials.
pub open spec fn spec_field_missing(c: TogglConfig, f: TogglField) -> bool {
    match f {
        TogglField::WorkspaceId => c.workspace_id == 0,
        TogglField::ProjectId => c.project_id == 0,
        TogglField::Email => c.email@.len() == 0,
        TogglField::Password => c.password@.len() == 0,
    }
}

/// An answer usable for `f`: the numeric ids must be decimal numbers that
/// fit in 64 bits, text fields accept anything.
pub open spec fn spec_field_valid(f: TogglField, t: Seq<char>) -> bool {
    match f {
        TogglField::WorkspaceId => all_digits(t) && dec_val(t) <= u64::MAX,
        TogglField::ProjectId => all_digits(t) && dec_val(t) <= u64::MAX,
        TogglField::Email => true,
        TogglField::Password => true,
    }
}

/// All fields other than `f` agree between `a` and `b`.
pub open spec fn spec_same_except(a: TogglConfig, b: TogglConfig, f: TogglField) -> bool {
    &&& a.base_url == b.base_url
    &&& a.time_entries_uri == b.time_entries_uri
    &&& (!(f is WorkspaceId) ==> a.workspace_id == b.workspace_id)
    &&& (!(f is ProjectId) ==> a.project_id == b.project_id)
    &&& (!(f is Email) ==> a.email == b.email)
    &&& (!(f is Password) ==> a.password == b.password)
}

/// Field `f` of `c` holds the value the trimmed answer `t` denotes.
pub open spec fn spec_field_set(c: TogglConfig, f: TogglField, t: Seq<char>) -> bool {
    match f {
        TogglField::WorkspaceId => c.workspace_id == dec_val(t),
        TogglField::ProjectId => c.project_id == dec_val(t),
        TogglField::Email => c.email@ == t,
        TogglField::Password => c.password@ == t,
    }
}

/// Whether construction must prompt for `f`: always during forced setup,
/// otherwise only while the field has never been supplied.
pub fn field_needs_prompt(config: &TogglConfig, setup: bool, f: TogglField) -> (r: bool)
    ensures
        r == (setup || spec_field_missing(*config, f)),
{
    if setup {
        return true;
    }
    match f {
        TogglField::WorkspaceId => config.workspace_id == 0,
        TogglField::ProjectId => config.project_id == 0,
        TogglField::Email => config.email.as_str().is_empty(),
        TogglField::Password => config.password.as_str().is_empty(),
    }
}

/// Applies one interactive answer for `f`.  A blank answer keeps the
/// current value; a usable one updates the field and writes the entry back
/// to the document at once; an unusable one changes nothing.
pub fn apply_field(
    doc: &mut ConfigDocument,
    config: &mut TogglConfig,
    f: TogglField,
    answer: &str,
) -> (r: ApplyOutcome)
    ensures
        ({
            let t = spec_trim_spaces(answer@);
            if t.len() == 0 {
                r is Kept && *final(config) == *old(config) && *final(doc) == *old(doc)
            } else if spec_field_valid(f, t) {
                &&& r is Updated
                &&& spec_same_except(*old(config), *final(config), f)
                &&& spec_field_set(*final(config), f, t)
                &&& *final(doc) == old(doc).with_toggl(*final(config))
            } else {
                r is Invalid && *final(config) == *old(config) && *final(doc) == *old(doc)
            }
        }),
{
    let t = trim_spaces(answer);
    if t.is_empty() {
        return ApplyOutcome::Kept;
    }
    match f {
        TogglField::WorkspaceId => {
            match parse_u64(t) {
                Some(v) => {
                    config.workspace_id = v;
                },
                None => {
                    return ApplyOutcome::Invalid;
                },
            }
        },
        TogglField::ProjectId => {
            match parse_u64(t) {
                Some(v) => {
                    config.project_id = v;
                },
                None => {
                    return ApplyOutcome::Invalid;
                },
            }
        },
        TogglField::Email => {
            config.email = t.to_owned();
        },
        TogglField::Password => {
            config.password = t.to_owned();
        },
    }
    config::update_config(doc, config);
    ApplyOutcome::Updated
}

} // verus!
