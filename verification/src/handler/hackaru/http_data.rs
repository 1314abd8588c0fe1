//! The request and response shapes of the Hackaru API: a login exchange,
//! then one activity started and later stopped by id.

use vstd::prelude::*;

verus! {

/// The login request: the user's credentials.
#[derive(Debug, Clone, PartialEq)]
pub struct LoginRequest {
    pub user: UserRequest,
}

/// The credentials inside a login request.
#[derive(Debug, Clone, PartialEq)]
pub struct UserRequest {
    pub email: String,
    pub password: String,
}

/// The request that starts an activity.
#[derive(Debug, Clone, PartialEq)]
pub struct ActivityStartRequest {
    pub activity: ActivityStartData,
}

/// The description, project and start time of a new activity.
#[derive(Debug, Clone, PartialEq)]
pub struct ActivityStartData {
    pub description: String,
    pub project_id: u64,
    pub started_at: String,
}

/// The request that stops a running activity.
#[derive(Debug, Clone, PartialEq)]
pub struct ActivityEndRequest {
    pub activity: ActivityEndData,
}

/// The id and stop time of the activity being stopped.
#[derive(Debug, Clone, PartialEq)]
pub struct ActivityEndData {
    pub id: u32,
    pub stopped_at: String,
}

/// What the server returns for a started activity: its id.
#[derive(Debug, Clone, PartialEq)]
pub struct ActivityResponse {
    pub id: u32,
}

impl ActivityStartRequest {
    /// Wraps the fields of a new activity in the documented request shape.
    pub fn new(description: String, project_id: u64, started_at: String) -> (r: Self)
        ensures
            r.activity.description == description,
            r.activity.project_id == project_id,
            r.activity.started_at == started_at,
    {
        ActivityStartRequest {
            activity: ActivityStartData { description, project_id, started_at },
        }
    }
}

impl ActivityEndRequest {
    /// Wraps an activity id and stop time in the documented request shape.
    pub fn new(id: u32, stopped_at: String) -> (r: Self)
        ensures
            r.activity.id == id,
            r.activity.stopped_at == stopped_at,
    {
        ActivityEndRequest { activity: ActivityEndData { id, stopped_at } }
    }
}

} // verus!
