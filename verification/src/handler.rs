//! The catalog of vendor handlers and the pieces they share: name and id
//! resolution, the outcome of applying an interactive answer, and the
//! trusted renderings (timestamps and URL templates) the request builders
//! are specified against.

use crate::text::eq_fold;
use crate::text::eq_ignore_case;
use vstd::prelude::*;

pub mod clockify;
pub mod example;
pub mod hackaru;
pub mod toggl;
pub mod traggo;

verus! {

/// The known vendor handlers, in the stable order used by selection menus.
#[derive(Clone, Copy, Debug, PartialEq, Eq, Structural)]
pub enum Handlers {
    Toggl,
    Clockify,
    Traggo,
    Hackaru,
    Example,
}

/// The stable numeric id of each handler, starting at 1.
pub open spec fn spec_id(h: Handlers) -> u8 {
    match h {
        Handlers::Toggl => 1,
        Handlers::Clockify => 2,
        Handlers::Traggo => 3,
        Handlers::Hackaru => 4,
        Handlers::Example => 5,
    }
}

/// The handler with numeric id `v`, if any.
pub open spec fn spec_from_id(v: u8) -> Option<Handlers> {
    if v == 1 {
        Some(Handlers::Toggl)
    } else if v == 2 {
        Some(Handlers::Clockify)
    } else if v == 3 {
        Some(Handlers::Traggo)
    } else if v == 4 {
        Some(Handlers::Hackaru)
    } else if v == 5 {
        Some(Handlers::Example)
    } else {
        None
    }
}

/// The configuration name of each handler.
pub open spec fn spec_name(h: Handlers) -> Seq<char> {
    match h {
        Handlers::Toggl => "toggl"@,
        Handlers::Clockify => "clockify"@,
        Handlers::Traggo => "traggo"@,
        Handlers::Hackaru => "hackaru"@,
        Handlers::Example => "example"@,
    }
}

/// The handler a configured name resolves to, compared ignoring ASCII case.
pub open spec fn spec_resolve(s: Seq<char>) -> Option<Handlers> {
    if eq_fold(s, "toggl"@) {
        Some(Handlers::Toggl)
    } else if eq_fold(s, "clockify"@) {
        Some(Handlers::Clockify)
    } else if eq_fold(s, "traggo"@) {
        Some(Handlers::Traggo)
    } else if eq_fold(s, "hackaru"@) {
        Some(Handlers::Hackaru)
    } else if eq_fold(s, "example"@) {
        Some(Handlers::Example)
    } else {
        None
    }
}

impl Handlers {
    /// The stable numeric id shown in selection menus.
    pub fn id(&self) -> (r: u8)
        ensures
            r == spec_id(*self),
    {
        match self {
            Handlers::Toggl => 1,
            Handlers::Clockify => 2,
            Handlers::Traggo => 3,
            Handlers::Hackaru => 4,
            Handlers::Example => 5,
        }
    }

    /// The handler with numeric id `v`, as chosen in the setup menu.
    pub fn from_id(v: u8) -> (r: Option<Handlers>)
        ensures
            r == spec_from_id(v),
    {
        if v == 1 {
            Some(Handlers::Toggl)
        } else if v == 2 {
            Some(Handlers::Clockify)
        } else if v == 3 {
            Some(Handlers::Traggo)
        } else if v == 4 {
            Some(Handlers::Hackaru)
        } else if v == 5 {
            Some(Handlers::Example)
        } else {
            None
        }
    }

    /// The configuration name of this handler.
    pub fn name(&self) -> (r: &'static str)
        ensures
            r@ == spec_name(*self),
    {
        match self {
            Handlers::Toggl => "toggl",
            Handlers::Clockify => "clockify",
            Handlers::Traggo => "traggo",
            Handlers::Hackaru => "hackaru",
            Handlers::Example => "example",
        }
    }

    /// Resolves a configured name, ignoring ASCII case.
    pub fn from_name(name: &str) -> (r: Option<Handlers>)
        ensures
            r == spec_resolve(name@),
    {
        if eq_ignore_case(name, "toggl") {
            Some(Handlers::Toggl)
        } else if eq_ignore_case(name, "clockify") {
            Some(Handlers::Clockify)
        } else if eq_ignore_case(name, "traggo") {
            Some(Handlers::Traggo)
        } else if eq_ignore_case(name, "hackaru") {
            Some(Handlers::Hackaru)
        } else if eq_ignore_case(name, "example") {
            Some(Handlers::Example)
        } else {
            None
        }
    }

    /// All handlers, in declaration order; the setup menu renders this.
    pub fn list() -> (r: Vec<Handlers>)
        ensures
            r@ == seq![
                Handlers::Toggl,
                Handlers::Clockify,
                Handlers::Traggo,
                Handlers::Hackaru,
                Handlers::Example,
            ],
    {
        let mut v: Vec<Handlers> = Vec::new();
        v.push(Handlers::Toggl);
        v.push(Handlers::Clockify);
        v.push(Handlers::Traggo);
        v.push(Handlers::Hackaru);
        v.push(Handlers::Example);
        proof {
            assert(v@ =~= seq![
                Handlers::Toggl,
                Handlers::Clockify,
                Handlers::Traggo,
                Handlers::Hackaru,
                Handlers::Example,
            ]);
        }
        v
    }
}

/// A handler's id always resolves back to that handler.
pub proof fn lemma_id_round_trip(h: Handlers)
    ensures
        spec_from_id(spec_id(h)) == Some(h),
{
}

/// A handler's own name always resolves back to that handler.
pub proof fn lemma_name_round_trip(h: Handlers)
    ensures
        spec_resolve(spec_name(h)) == Some(h),
{
    reveal_strlit("toggl");
    reveal_strlit("clockify");
    reveal_strlit("traggo");
    reveal_strlit("hackaru");
    reveal_strlit("example");
    assert(!eq_fold("example"@, "hackaru"@)) by {
        assert("example"@[0] == 'e');
        assert("hackaru"@[0] == 'h');
    }
}

/// What applying one interactive answer did to a vendor configuration: a
/// blank answer keeps the current value, a usable answer updates the field
/// and writes the entry back, anything else is rejected unchanged.
#[derive(Clone, Copy, Debug, PartialEq, Eq, Structural)]
pub enum ApplyOutcome {
    Kept,
    Updated,
    Invalid,
}

/// The largest epoch second the timestamp rendering is relied on for
/// (the last second of year 9999, well inside chrono's range).
pub const MAX_RFC3339_SECS: i64 = 253402300799;

/// The RFC 3339 rendering, with seconds precision and a `Z` offset, of an
/// epoch second.
pub uninterp spec fn rfc3339_secs_z_of(secs: int) -> Seq<char>;

/// The full RFC 3339 rendering (with `+00:00` style offset) of an epoch
/// second.
pub uninterp spec fn rfc3339_of(secs: int) -> Seq<char>;

/// A URL template with its `workspace_id` placeholder filled in.
pub uninterp spec fn rendered_workspace(template: Seq<char>, workspace_id: Seq<char>) -> Seq<char>;

/// Whether a URL template renders at all with the one `workspace_id`
/// context value: compiling and rendering succeed or fail as a function of
/// the template text and that value alone.
pub uninterp spec fn workspace_template_renders(
    template: Seq<char>,
    workspace_id: Seq<char>,
) -> bool;

/// Relies on chrono: `DateTime::<Utc>::from_timestamp` turns an in-range
/// epoch second into a UTC datetime (`None` only out of range), and
/// `to_rfc3339_opts(SecondsFormat::Secs, true)` renders it as a function of
/// that instant alone.
#[verifier::external_body]
pub(crate) fn format_rfc3339_secs_z(secs: i64) -> (r: Option<String>)
    ensures
        r matches Some(s) ==> s@ == rfc3339_secs_z_of(secs as int),
        0 <= secs <= MAX_RFC3339_SECS ==> r is Some,
{
    match chrono::DateTime::<chrono::Utc>::from_timestamp(secs, 0) {
        Some(dt) => Some(dt.to_rfc3339_opts(chrono::SecondsFormat::Secs, true)),
        None => None,
    }
}

/// Relies on chrono: `DateTime::<Utc>::from_timestamp` as above, and
/// `to_rfc3339`, whose rendering is a function of the instant alone.
#[verifier::external_body]
pub(crate) fn format_rfc3339(secs: i64) -> (r: Option<String>)
    ensures
        r matches Some(s) ==> s@ == rfc3339_of(secs as int),
        0 <= secs <= MAX_RFC3339_SECS ==> r is Some,
{
    match chrono::DateTime::<chrono::Utc>::from_timestamp(secs, 0) {
        Some(dt) => Some(dt.to_rfc3339()),
        None => None,
    }
}

/// Relies on tinytemplate: `TinyTemplate::new`, `add_template` and
/// `render`.  Both the output and whether compiling and rendering succeed
/// are functions of the template text and the one `workspace_id` context
/// value alone (the one-key string context itself always serializes).
#[verifier::external_body]
pub(crate) fn render_workspace_template(template: &str, workspace_id: &str) -> (r: Option<String>)
    ensures
        r matches Some(s) ==> s@ == rendered_workspace(template@, workspace_id@),
        r is Some <==> workspace_template_renders(template@, workspace_id@),
{
    let mut tt = tinytemplate::TinyTemplate::new();
    if tt.add_template("url", template).is_err() {
        return None;
    }
    let mut context = std::collections::HashMap::new();
    context.insert("workspace_id", workspace_id);
    tt.render("url", &context).ok()
}

} // verus!
