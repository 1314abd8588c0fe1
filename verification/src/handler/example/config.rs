//! Configuration for the no-op example handler, stored under the `example`
//! key.

use crate::config::{Config, ConfigDocument};
use vstd::prelude::*;

verus! {

/// Endpoint and key for the example API.
#[derive(Debug, PartialEq)]
pub struct ExampleConfig {
    pub base_url: String,
    pub api_key: String,
}

impl Clone for ExampleConfig {
    fn clone(&self) -> (r: Self)
        ensures
            r == *self,
    {
        ExampleConfig { base_url: self.base_url.clone(), api_key: self.api_key.clone() }
    }
}

/// The defaults the `example` key is created with.
pub open spec fn spec_is_default(c: ExampleConfig) -> bool {
    &&& c.base_url@ == "https://api.example.com"@
    &&& c.api_key@ == Seq::<char>::empty()
}

impl Default for ExampleConfig {
    fn default() -> (r: Self)
        ensures
            spec_is_default(r),
    {
        ExampleConfig {
            base_url: String::from_str("https://api.example.com"),
            api_key: String::new(),
        }
    }
}

impl Config for ExampleConfig {

}

/// Reads the `example` entry, creating and writing back the defaults the
/// first time the key is used.
pub fn create_config(doc: &mut ConfigDocument) -> (r: ExampleConfig)
    ensures
        match old(doc).example {
            Some(c) => r == c && *final(doc) == *old(doc),
            None => spec_is_default(r) && *final(doc) == old(doc).with_example(r),
        },
{
    match &doc.example {
        Some(c) => c.clone(),
        None => {
            let def = ExampleConfig::default();
            update_config(doc, &def);
            def
        },
    }
}

/// Writes the `example` entry; the rest of the document is untouched.
pub fn update_config(doc: &mut ConfigDocument, config: &ExampleConfig)
    ensures
        *final(doc) == old(doc).with_example(*config),
{
    doc.example = Some(config.clone());
}

/// Round trip: a document whose `example` entry was just written holds
/// exactly the written structure, and reading it back yields it unchanged.
pub proof fn lemma_round_trip(doc: ConfigDocument, c: ExampleConfig)
    ensures
        doc.with_example(c).example == Some(c),
        doc.with_example(c).with_example(c) == doc.with_example(c),
{
}

} // verus!
