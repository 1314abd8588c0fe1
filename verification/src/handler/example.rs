//! The example handler: a template for new vendors.  It posts to the
//! configured endpoint with an API key and an empty body.

pub mod config;

use crate::config::ConfigDocument;
use crate::handler::ApplyOutcome;
use crate::text::{spec_trim_end_slashes, spec_trim_spaces, trim_end_slashes, trim_spaces};
use self::config::ExampleConfig;
use vstd::prelude::*;

verus! {

/// One request of the example handler: a POST with no body to `url` under
/// the `x-api-key` header.
#[derive(Debug, PartialEq)]
pub struct ExampleRequest {
    pub url: String,
    pub api_key: String,
}

/// The URL posted to: the base URL without trailing slashes.
pub open spec fn spec_submit_url(c: ExampleConfig) -> Seq<char> {
    spec_trim_end_slashes(c.base_url@)
}

/// Builds the request for one completed interval.
pub fn prepare_submit(config: &ExampleConfig) -> (r: ExampleRequest)
    ensures
        r.url@ == spec_submit_url(*config),
        r.api_key == config.api_key,
{
    let url = trim_end_slashes(config.base_url.as_str()).to_owned();
    ExampleRequest { url, api_key: config.api_key.clone() }
}

/// The fields interactive setup may prompt for.
#[derive(Clone, Copy, Debug, PartialEq, Eq, Structural)]
pub enum ExampleField {
    ApiKey,
}

/// A field that has never been supplied.
pub open spec fn spec_field_missing(c: ExampleConfig, f: ExampleField) -> bool {
    match f {
        ExampleField::ApiKey => c.api_key@.len() == 0,
    }
}

/// All fields other than `f` agree between `a` and `b`.
pub open spec fn spec_same_except(a: ExampleConfig, b: ExampleConfig, f: ExampleField) -> bool {
    &&& a.base_url == b.base_url
}

/// Field `f` of `c` holds the trimmed answer `t`.
pub open spec fn spec_field_set(c: ExampleConfig, f: ExampleField, t: Seq<char>) -> bool {
    match f {
        ExampleField::ApiKey => c.api_key@ == t,
    }
}

/// Whether construction must prompt for `f`: always during forced setup,
/// otherwise only while the field has never been supplied.
pub fn field_needs_prompt(config: &ExampleConfig, setup: bool, f: ExampleField) -> (r: bool)
    ensures
        r == (setup || spec_field_missing(*config, f)),
{
    if setup {
        return true;
    }
    match f {
        ExampleField::ApiKey => config.api_key.as_str().is_empty(),
    }
}

/// Applies one interactive answer for `f`.  A blank answer keeps the
/// current value; any other updates the field and writes the entry back to
/// the document at once.
pub fn apply_field(
    doc: &mut ConfigDocument,
    config: &mut ExampleConfig,
    f: ExampleField,
    answer: &str,
) -> (r: ApplyOutcome)
    ensures
        ({
            let t = spec_trim_spaces(answer@);
            if t.len() == 0 {
                r is Kept && *final(config) == *old(config) && *final(doc) == *old(doc)
            } else {
                &&& r is Updated
                &&& spec_same_except(*old(config), *final(config), f)
                &&& spec_field_set(*final(config), f, t)
                &&& *final(doc) == old(doc).with_example(*final(config))
            }
        }),
{
    let t = trim_spaces(answer);
    if t.is_empty() {
        return ApplyOutcome::Kept;
    }
    match f {
        ExampleField::ApiKey => {
            config.api_key = t.to_owned();
        },
    }
    config::update_config(doc, config);
    ApplyOutcome::Updated
}

} // verus!
