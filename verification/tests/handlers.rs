//! The handler catalog: ids, names, and resolution.

use timeular_reader::handler::Handlers;

#[test]
fn ids_are_stable() {
    assert_eq!(Handlers::Toggl.id(), 1);
    assert_eq!(Handlers::Clockify.id(), 2);
    assert_eq!(Handlers::Traggo.id(), 3);
    assert_eq!(Handlers::Hackaru.id(), 4);
    assert_eq!(Handlers::Example.id(), 5);
}

#[test]
fn from_id_resolves_known_ids() {
    assert_eq!(Handlers::from_id(1), Some(Handlers::Toggl));
    assert_eq!(Handlers::from_id(2), Some(Handlers::Clockify));
    assert_eq!(Handlers::from_id(3), Some(Handlers::Traggo));
    assert_eq!(Handlers::from_id(4), Some(Handlers::Hackaru));
    assert_eq!(Handlers::from_id(5), Some(Handlers::Example));
    assert_eq!(Handlers::from_id(0), None);
    assert_eq!(Handlers::from_id(6), None);
    assert_eq!(Handlers::from_id(255), None);
}

#[test]
fn id_round_trip() {
    for h in Handlers::list() {
        assert_eq!(Handlers::from_id(h.id()), Some(h));
    }
}

#[test]
fn names_resolve_ignoring_case() {
    assert_eq!(Handlers::from_name("toggl"), Some(Handlers::Toggl));
    assert_eq!(Handlers::from_name("ToGgL"), Some(Handlers::Toggl));
    assert_eq!(Handlers::from_name("CLOCKIFY"), Some(Handlers::Clockify));
    assert_eq!(Handlers::from_name("traggo"), Some(Handlers::Traggo));
    assert_eq!(Handlers::from_name("Hackaru"), Some(Handlers::Hackaru));
    assert_eq!(Handlers::from_name("example"), Some(Handlers::Example));
    assert_eq!(Handlers::from_name(""), None);
    assert_eq!(Handlers::from_name("jira"), None);
}

#[test]
fn name_round_trip() {
    for h in Handlers::list() {
        assert_eq!(Handlers::from_name(h.name()), Some(h));
    }
}

#[test]
fn list_is_in_declaration_order() {
    let l = Handlers::list();
    assert_eq!(
        l,
        vec![
            Handlers::Toggl,
            Handlers::Clockify,
            Handlers::Traggo,
            Handlers::Hackaru,
            Handlers::Example,
        ]
    );
    for (i, h) in l.iter().enumerate() {
        assert_eq!(h.id() as usize, i + 1);
    }
}
