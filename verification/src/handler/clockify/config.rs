//! Configuration for the Clockify handler, stored under the `clockify` key.

use crate::config::{Config, ConfigDocument};
use vstd::prelude::*;

verus! {

/// Credentials and identifiers for the Clockify API.
#[derive(Debug, PartialEq)]
pub struct ClockifyConfig {
    pub base_url: String,
    pub time_entries_uri: String,
    pub api_key: String,
    pub project_id: String,
    pub workspace_id: String,
}

impl Clone for ClockifyConfig {
    fn clone(&self) -> (r: Self)
        ensures
            r == *self,
    {
        ClockifyConfig {
            base_url: self.base_url.clone(),
            time_entries_uri: self.time_entries_uri.clone(),
            api_key: self.api_key.clone(),
            project_id: self.project_id.clone(),
            workspace_id: self.workspace_id.clone(),
        }
    }
}

/// The defaults the `clockify` key is created with: the public API endpoint
/// and no credentials.
pub open spec fn spec_is_default(c: ClockifyConfig) -> bool {
    &&& c.base_url@ == "https://app.clockify.me"@
    &&& c.time_entries_uri@ == "/api/v1/workspaces/{workspace_id}/time-entries"@
    &&& c.api_key@ == Seq::<char>::empty()
    &&& c.project_id@ == Seq::<char>::empty()
    &&& c.workspace_id@ == Seq::<char>::empty()
}

impl Default for ClockifyConfig {
    fn default() -> (r: Self)
        ensures
            spec_is_default(r),
    {
        ClockifyConfig {
            base_url: String::from_str("https://app.clockify.me"),
            time_entries_uri: String::from_str("/api/v1/workspaces/{workspace_id}/time-entries"),
            api_key: String::new(),
            project_id: String::new(),
            workspace_id: String::new(),
        }
    }
}

impl Config for ClockifyConfig {

}

/// Reads the `clockify` entry, creating and writing back the defaults the
/// first time the key is used.
pub fn create_config(doc: &mut ConfigDocument) -> (r: ClockifyConfig)
    ensures
        match old(doc).clockify {
            Some(c) => r == c && *final(doc) == *old(doc),
            None => spec_is_default(r) && *final(doc) == old(doc).with_clockify(r),
        },
{
    match &doc.clockify {
        Some(c) => c.clone(),
        None => {
            let def = ClockifyConfig::default();
            update_config(doc, &def);
            def
        },
    }
}

/// Writes the `clockify` entry; the rest of the document is untouched.
pub fn update_config(doc: &mut ConfigDocument, config: &ClockifyConfig)
    ensures
        *final(doc) == old(doc).with_clockify(*config),
{
    doc.clockify = Some(config.clone());
}

/// Round trip: a document whose `clockify` entry was just written holds
/// exactly the written structure, and reading it back yields it unchanged.
pub proof fn lemma_round_trip(doc: ConfigDocument, c: ClockifyConfig)
    ensures
        doc.with_clockify(c).clockify == Some(c),
        doc.with_clockify(c).with_clockify(c) == doc.with_clockify(c),
{
}

} // verus!
