//! Configuration for the Hackaru handler, stored under the `hackaru` key.
//! Besides the credentials it carries the serialized cookie jar that holds
//! the session across runs.

use crate::config::{Config, ConfigDocument};
use vstd::prelude::*;

verus! {

/// Credentials, identifiers and cached session material for a Hackaru
/// instance.
#[derive(Debug, PartialEq)]
pub struct HackaruConfig {
    pub hackaru_url: String,
    pub activities_rel_url: String,
    pub email: String,
    pub project_id: u64,
    pub cookies: String,
    pub password: String,
}

impl Clone for HackaruConfig {
    fn clone(&self) -> (r: Self)
        ensures
            r == *self,
    {
        HackaruConfig {
            hackaru_url: self.hackaru_url.clone(),
            activities_rel_url: self.activities_rel_url.clone(),
            email: self.email.clone(),
            project_id: self.project_id,
            cookies: self.cookies.clone(),
            password: self.password.clone(),
        }
    }
}

/// The defaults the `hackaru` key is created with: no instance URL, the
/// documented activities path, and no credentials or session.
pub open spec fn spec_is_default(c: HackaruConfig) -> bool {
    &&& c.hackaru_url@ == Seq::<char>::empty()
    &&& c.activities_rel_url@ == "v1/activities"@
    &&& c.email@ == Seq::<char>::empty()
    &&& c.project_id == 0
    &&& c.cookies@ == Seq::<char>::empty()
    &&& c.password@ == Seq::<char>::empty()
}

impl Default for HackaruConfig {
    fn default() -> (r: Self)
        ensures
            spec_is_default(r),
    {
        HackaruConfig {
            hackaru_url: String::new(),
            activities_rel_url: String::from_str("v1/activities"),
            email: String::new(),
            project_id: 0,
            cookies: String::new(),
            password: String::new(),
        }
    }
}

impl Config for HackaruConfig {

}

/// Reads the `hackaru` entry, creating and writing back the defaults the
/// first time the key is used.
pub fn create_config(doc: &mut ConfigDocument) -> (r: HackaruConfig)
    ensures
        match old(doc).hackaru {
            Some(c) => r == c && *final(doc) == *old(doc),
            None => spec_is_default(r) && *final(doc) == old(doc).with_hackaru(r),
        },
{
    match &doc.hackaru {
        Some(c) => c.clone(),
        None => {
            let def = HackaruConfig::default();
            update_config(doc, &def);
            def
        },
    }
}

/// Writes the `hackaru` entry; the rest of the document is untouched.
pub fn update_config(doc: &mut ConfigDocument, config: &HackaruConfig)
    ensures
        *final(doc) == old(doc).with_hackaru(*config),
{
    doc.hackaru = Some(config.clone());
}

/// Round trip: a document whose `hackaru` entry was just written holds
/// exactly the written structure, and reading it back yields it unchanged.
pub proof fn lemma_round_trip(doc: ConfigDocument, c: HackaruConfig)
    ensures
        doc.with_hackaru(c).hackaru == Some(c),
        doc.with_hackaru(c).with_hackaru(c) == doc.with_hackaru(c),
{
}

/// Stores freshly serialized session cookies in the configuration and
/// writes the entry back at once, so the session survives a crash.
pub fn set_cookies(doc: &mut ConfigDocument, config: &mut HackaruConfig, cookies: String)
    ensures
        final(config).cookies == cookies,
        final(config).hackaru_url == old(config).hackaru_url,
        final(config).activities_rel_url == old(config).activities_rel_url,
        final(config).email == old(config).email,
        final(config).project_id == old(config).project_id,
        final(config).password == old(config).password,
        *final(doc) == old(doc).with_hackaru(*final(config)),
{
    config.cookies = cookies;
    update_config(doc, config);
}

} // verus!
