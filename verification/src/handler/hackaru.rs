//! The Hackaru handler: a cookie-based session, then two calls per
//! interval — one starting the activity, one stopping it by the id the
//! first call returned.

pub mod config;
pub mod http_data;

use crate::config::ConfigDocument;
use crate::handler::{format_rfc3339, rfc3339_of, ApplyOutcome};
use crate::text::{
    all_digits, dec_str, dec_val, parse_u64, spec_trim_end_slashes, spec_trim_slashes,
    spec_trim_spaces, trim_end_slashes, trim_slashes, trim_spaces, u64_to_string,
};
use crate::tracker::config::Side;
use crate::tracker::reader::Interval;
use self::config::HackaruConfig;
use self::http_data::{ActivityEndRequest, ActivityStartRequest, LoginRequest, UserRequest};
use vstd::prelude::*;

verus! {

/// The activities collection URL: the instance URL without trailing
/// slashes, then the configured activities path.
pub open spec fn spec_activities_url(c: HackaruConfig) -> Seq<char> {
    spec_trim_end_slashes(c.hackaru_url@) + "/"@ + spec_trim_slashes(c.activities_rel_url@)
}

/// The URL of one activity, addressed by the id the start call returned.
pub open spec fn spec_activity_url(c: HackaruConfig, id: int) -> Seq<char> {
    spec_activities_url(c) + "/"@ + dec_str(id)
}

/// The login URL of the configured instance.
pub open spec fn spec_auth_url(c: HackaruConfig) -> Seq<char> {
    spec_trim_end_slashes(c.hackaru_url@) + "/auth/auth_tokens"@
}

/// The URL activities are started at.
pub fn activities_url(config: &HackaruConfig) -> (r: String)
    ensures
        r@ == spec_activities_url(*config),
{
    let mut url = String::from_str(trim_end_slashes(config.hackaru_url.as_str()));
    url.append("/");
    url.append(trim_slashes(config.activities_rel_url.as_str()));
    proof {
        assert(url@ =~= spec_activities_url(*config));
    }
    url
}

/// The URL the started activity is stopped at.
pub fn activity_url(config: &HackaruConfig, id: u32) -> (r: String)
    ensures
        r@ == spec_activity_url(*config, id as int),
{
    let mut url = activities_url(config);
    let id_str = u64_to_string(id as u64);
    url.append("/");
    url.append(id_str.as_str());
    proof {
        assert(url@ =~= spec_activity_url(*config, id as int));
    }
    url
}

/// The URL the login request is sent to.
pub fn auth_url(config: &HackaruConfig) -> (r: String)
    ensures
        r@ == spec_auth_url(*config),
{
    let mut url = String::from_str(trim_end_slashes(config.hackaru_url.as_str()));
    url.append("/auth/auth_tokens");
    proof {
        assert(url@ =~= spec_auth_url(*config));
    }
    url
}

/// The login request for the configured credentials.
pub fn login_request(config: &HackaruConfig) -> (r: LoginRequest)
    ensures
        r.user.email == config.email,
        r.user.password == config.password,
{
    LoginRequest {
        user: UserRequest { email: config.email.clone(), password: config.password.clone() },
    }
}

/// Builds the request that starts the activity for a completed interval:
/// the side's label as description, the configured project, and the
/// interval's start time.  `None` only when the start time is outside the
/// rendered range.
pub fn prepare_start(config: &HackaruConfig, side: &Side, interval: &Interval) -> (r: Option<
    ActivityStartRequest,
>)
    ensures
        r matches Some(req) ==> ({
            &&& req.activity.description@ == side.label@
            &&& req.activity.project_id == config.project_id
            &&& req.activity.started_at@ == rfc3339_of(interval.start as int)
        }),
        0 <= interval.start <= crate::handler::MAX_RFC3339_SECS ==> r is Some,
{
    match format_rfc3339(interval.start) {
        Some(started_at) => Some(
            ActivityStartRequest::new(side.label.clone(), config.project_id, started_at),
        ),
        None => None,
    }
}

/// Builds the request that stops activity `id` at the interval's end time.
/// `None` only when the end time is outside the rendered range.
pub fn prepare_end(id: u32, interval: &Interval) -> (r: Option<ActivityEndRequest>)
    ensures
        r matches Some(req) ==> ({
            &&& req.activity.id == id
            &&& req.activity.stopped_at@ == rfc3339_of(interval.end as int)
        }),
        0 <= interval.end <= crate::handler::MAX_RFC3339_SECS ==> r is Some,
{
    match format_rfc3339(interval.end) {
        Some(stopped_at) => Some(ActivityEndRequest::new(id, stopped_at)),
        None => None,
    }
}

/// The fields interactive setup may prompt for, in prompt order.
#[derive(Clone, Copy, Debug, PartialEq, Eq, Structural)]
pub enum HackaruField {
    Url,
    ProjectId,
    Email,
    Password,
}

/// A field that has never been supplied: zero for the project id, empty
/// for the rest.
pub open spec fn spec_field_missing(c: HackaruConfig, f: HackaruField) -> bool {
    match f {
        HackaruField::Url => c.hackaru_url@.len() == 0,
        HackaruField::ProjectId => c.project_id == 0,
        HackaruField::Email => c.email@.len() == 0,
        HackaruField::Password => c.password@.len() == 0,
    }
}

/// An answer usable for `f`: the project id must be a decimal number that
/// fits in 64 bits, text fields accept anything.
pub open spec fn spec_field_valid(f: HackaruField, t: Seq<char>) -> bool {
    match f {
        HackaruField::ProjectId => all_digits(t) && dec_val(t) <= u64::MAX,
        HackaruField::Url => true,
        HackaruField::Email => true,
        HackaruField::Password => true,
    }
}

/// All fields other than `f` agree between `a` and `b`.
pub open spec fn spec_same_except(a: HackaruConfig, b: HackaruConfig, f: HackaruField) -> bool {
    &&& a.activities_rel_url == b.activities_rel_url
    &&& a.cookies == b.cookies
    &&& (!(f is Url) ==> a.hackaru_url == b.hackaru_url)
    &&& (!(f is ProjectId) ==> a.project_id == b.project_id)
    &&& (!(f is Email) ==> a.email == b.email)
    &&& (!(f is Password) ==> a.password == b.password)
}

/// Field `f` of `c` holds the value the trimmed answer `t` denotes.
pub open spec fn spec_field_set(c: HackaruConfig, f: HackaruField, t: Seq<char>) -> bool {
    match f {
        HackaruField::Url => c.hackaru_url@ == t,
        HackaruField::ProjectId => c.project_id == dec_val(t),
        HackaruField::Email => c.email@ == t,
        HackaruField::Password => c.password@ == t,
    }
}

/// Whether construction must prompt for `f`: always during forced setup,
/// otherwise only while the field has never been supplied.
pub fn field_needs_prompt(config: &HackaruConfig, setup: bool, f: HackaruField) -> (r: bool)
    ensures
        r == (setup || spec_field_missing(*config, f)),
{
    if setup {
        return true;
    }
    match f {
        HackaruField::Url => config.hackaru_url.as_str().is_empty(),
        HackaruField::ProjectId => config.project_id == 0,
        HackaruField::Email => config.email.as_str().is_empty(),
        HackaruField::Password => config.password.as_str().is_empty(),
    }
}

/// Applies one interactive answer for `f`.  A blank answer keeps the
/// current value; a usable one updates the field and writes the entry back
/// to the document at once; an unusable one changes nothing.
pub fn apply_field(
    doc: &mut ConfigDocument,
    config: &mut HackaruConfig,
    f: HackaruField,
    answer: &str,
) -> (r: ApplyOutcome)
    ensures
        ({
            let t = spec_trim_spaces(answer@);
            if t.len() == 0 {
                r is Kept && *final(config) == *old(config) && *final(doc) == *old(doc)
            } else if spec_field_valid(f, t) {
                &&& r is Updated
                &&& spec_same_except(*old(config), *final(config), f)
                &&& spec_field_set(*final(config), f, t)
                &&& *final(doc) == old(doc).with_hackaru(*final(config))
            } else {
                r is Invalid && *final(config) == *old(config) && *final(doc) == *old(doc)
            }
        }),
{
    let t = trim_spaces(answer);
    if t.is_empty() {
        return ApplyOutcome::Kept;
    }
    match f {
        HackaruField::Url => {
            config.hackaru_url = t.to_owned();
        },
        HackaruField::ProjectId => {
            match parse_u64(t) {
                Some(v) => {
                    config.project_id = v;
                },
                None => {
                    return ApplyOutcome::Invalid;
                },
            }
        },
        HackaruField::Email => {
            config.email = t.to_owned();
        },
        HackaruField::Password => {
            config.password = t.to_owned();
        },
    }
    config::update_config(doc, config);
    ApplyOutcome::Updated
}

} // verus!
