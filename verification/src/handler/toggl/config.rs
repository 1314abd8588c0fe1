//! Configuration for the Toggl handler, stored under the `toggl` key.

use crate::config::{Config, ConfigDocument};
use vstd::prelude::*;

verus! {

/// The template context for the time-entries URL.
#[derive(Debug, PartialEq)]
pub struct Context {
    pub workspace_id: u64,
}

/// Credentials and identifiers for the Toggl API.
#[derive(Debug, PartialEq)]
pub struct TogglConfig {
    pub base_url: String,
    pub time_entries_uri: String,
    pub email: String,
    pub password: String,
    pub project_id: u64,
    pub workspace_id: u64,
}

impl Clone for TogglConfig {
    fn clone(&self) -> (r: Self)
        ensures
            r == *self,
    {
        TogglConfig {
            base_url: self.base_url.clone(),
            time_entries_uri: self.time_entries_uri.clone(),
            email: self.email.clone(),
            password: self.password.clone(),
            project_id: self.project_id,
            workspace_id: self.workspace_id,
        }
    }
}

/// The defaults the `toggl` key is created with: the public API endpoint and
/// no credentials.
pub open spec fn spec_is_default(c: TogglConfig) -> bool {
    &&& c.base_url@ == "https://api.track.toggl.com"@
    &&& c.time_entries_uri@ == "api/v9/workspaces/{workspace_id}/time_entries"@
    &&& c.email@ == Seq::<char>::empty()
    &&& c.password@ == Seq::<char>::empty()
    &&& c.project_id == 0
    &&& c.workspace_id == 0
}

impl Default for TogglConfig {
    fn default() -> (r: Self)
        ensures
            spec_is_default(r),
    {
        TogglConfig {
            base_url: String::from_str("https://api.track.toggl.com"),
            time_entries_uri: String::from_str("api/v9/workspaces/{workspace_id}/time_entries"),
            email: String::new(),
            password: String::new(),
            project_id: 0,
            workspace_id: 0,
        }
    }
}

impl Config for TogglConfig {

}

/// Reads the `toggl` entry, creating and writing back the defaults the
/// first time the key is used.
pub fn create_config(doc: &mut ConfigDocument) -> (r: TogglConfig)
    ensures
        match old(doc).toggl {
            Some(c) => r == c && *final(doc) == *old(doc),
            None => spec_is_default(r) && *final(doc) == old(doc).with_toggl(r),
        },
{
    match &doc.toggl {
        Some(c) => c.clone(),
        None => {
            let def = TogglConfig::default();
            update_config(doc, &def);
            def
        },
    }
}

/// Writes the `toggl` entry; the rest of the document is untouched.
pub fn update_config(doc: &mut ConfigDocument, config: &TogglConfig)
    ensures
        *final(doc) == old(doc).with_toggl(*config),
{
    doc.toggl = Some(config.clone());
}

/// Round trip: a document whose `toggl` entry was just written holds
/// exactly the written structure, and reading it back yields it unchanged.
pub proof fn lemma_round_trip(doc: ConfigDocument, c: TogglConfig)
    ensures
        doc.with_toggl(c).toggl == Some(c),
        doc.with_toggl(c).with_toggl(c) == doc.with_toggl(c),
{
}

} // verus!
