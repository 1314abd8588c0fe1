//! The configuration document: one typed entry per logical key, read and
//! written as a whole.  Persistence of the document is the caller's concern;
//! the library only describes how each component's entry is created on first
//! use and written back.

use crate::handler::clockify::config::ClockifyConfig;
use crate::handler::example::config::ExampleConfig;
use crate::handler::hackaru::config::HackaruConfig;
use crate::handler::toggl::config::TogglConfig;
use crate::tracker::config::TimeularConfig;
use vstd::prelude::*;

verus! {

/// Marker for the per-key configuration structures stored in the document.
pub trait Config {

}

/// The whole configuration document: one optional entry per key.  `None`
/// means the key has never been written; reading such a key creates it with
/// the component's defaults.
#[derive(Debug, PartialEq)]
pub struct ConfigDocument {
    pub timeular: Option<TimeularConfig>,
    pub toggl: Option<TogglConfig>,
    pub clockify: Option<ClockifyConfig>,
    pub hackaru: Option<HackaruConfig>,
    pub example: Option<ExampleConfig>,
}

impl ConfigDocument {
    /// An empty document, as on first run.
    pub fn new() -> (r: Self)
        ensures
            r.timeular is None,
            r.toggl is None,
            r.clockify is None,
            r.hackaru is None,
            r.example is None,
    {
        ConfigDocument {
            timeular: None,
            toggl: None,
            clockify: None,
            hackaru: None,
            example: None,
        }
    }

    /// The document with its `timeular` entry replaced.
    pub open spec fn with_timeular(self, c: TimeularConfig) -> ConfigDocument {
        ConfigDocument { timeular: Some(c), ..self }
    }

    /// The document with its `toggl` entry replaced.
    pub open spec fn with_toggl(self, c: TogglConfig) -> ConfigDocument {
        ConfigDocument { toggl: Some(c), ..self }
    }

    /// The document with its `clockify` entry replaced.
    pub open spec fn with_clockify(self, c: ClockifyConfig) -> ConfigDocument {
        ConfigDocument { clockify: Some(c), ..self }
    }

    /// The document with its `hackaru` entry replaced.
    pub open spec fn with_hackaru(self, c: HackaruConfig) -> ConfigDocument {
        ConfigDocument { hackaru: Some(c), ..self }
    }

    /// The document with its `example` entry replaced.
    pub open spec fn with_example(self, c: ExampleConfig) -> ConfigDocument {
        ConfigDocument { example: Some(c), ..self }
    }
}

} // verus!
