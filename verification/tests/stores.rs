use club_backend::errors::AppError;
use club_backend::events::{
    CreateEventRequest, EventStore, UpdateEventRequest, event_to_response, events_to_responses,
};
use club_backend::gallery::{
    CreateGalleryItemRequest, GalleryStore, UpdateGalleryItemRequest, gallery_to_response,
};
use club_backend::team::{CreateTeamMemberRequest, TeamStore, UpdateTeamMemberRequest};

fn event_req(title: &str) -> CreateEventRequest {
    CreateEventRequest {
        title: title.to_string(),
        description: Some("desc".to_string()),
        event_type: Some("meetup".to_string()),
        event_date: Some(19800),
        start_time: Some(3600),
        end_time: Some(7200),
        location: Some("hall".to_string()),
    }
}

fn empty_event_patch() -> UpdateEventRequest {
    UpdateEventRequest {
        title: None,
        description: None,
        event_type: None,
        image_id: None,
        event_date: None,
        start_time: None,
        end_time: None,
        location: None,
        is_published: None,
    }
}

#[test]
fn create_assigns_fresh_ids_and_defaults() {
    let mut store = EventStore::new();
    let a = store.create(event_req("a"), 100).unwrap();
    let b = store.create(event_req("b"), 101).unwrap();
    assert_eq!(a.id, 1);
    assert_eq!(b.id, 2);
    assert!(!a.is_published);
    assert!(!b.is_published);
    // deleting does not free an identity for reuse
    store.delete(b.id).unwrap();
    let c = store.create(event_req("c"), 102).unwrap();
    assert_eq!(c.id, 3);

    let mut team = TeamStore::new();
    let m = team
        .create(
            CreateTeamMemberRequest {
                name: "Ada".to_string(),
                position: "Lead".to_string(),
                bio: None,
                email: None,
                phone: None,
                display_order: None,
            },
            100,
        )
        .unwrap();
    assert_eq!(m.id, 1);
    assert!(m.is_active);

    let mut gallery = GalleryStore::new();
    let g = gallery
        .create(
            CreateGalleryItemRequest {
                title: None,
                description: None,
                display_order: None,
                gallery_category: None,
            },
            100,
        )
        .unwrap();
    assert_eq!(g.id, 1);
    assert!(!g.is_featured);
}

#[test]
fn create_then_get_round_trip() {
    let mut store = EventStore::new();
    let created = store.create(event_req("launch"), 500).unwrap();
    let fetched = store.get(created.id).unwrap();
    assert_eq!(fetched.id, created.id);
    assert_eq!(fetched.title, "launch");
    assert_eq!(fetched.description, Some("desc".to_string()));
    assert_eq!(fetched.event_type, Some("meetup".to_string()));
    assert_eq!(fetched.event_date, Some(19800));
    assert_eq!(fetched.start_time, Some(3600));
    assert_eq!(fetched.end_time, Some(7200));
    assert_eq!(fetched.location, Some("hall".to_string()));
    assert_eq!(fetched.image_id, None);
    assert!(!fetched.is_published);
    assert_eq!(fetched.created_at, 500);
    assert_eq!(fetched.updated_at, 500);
}

#[test]
fn empty_update_changes_only_timestamp() {
    let mut store = EventStore::new();
    let created = store.create(event_req("keep"), 500).unwrap();
    let updated = store.update(created.id, empty_event_patch(), 900).unwrap();
    assert_eq!(updated.id, created.id);
    assert_eq!(updated.title, created.title);
    assert_eq!(updated.description, created.description);
    assert_eq!(updated.event_type, created.event_type);
    assert_eq!(updated.image_id, created.image_id);
    assert_eq!(updated.event_date, created.event_date);
    assert_eq!(updated.start_time, created.start_time);
    assert_eq!(updated.end_time, created.end_time);
    assert_eq!(updated.location, created.location);
    assert_eq!(updated.is_published, created.is_published);
    assert_eq!(updated.created_at, created.created_at);
    assert_eq!(updated.updated_at, 900);
}

#[test]
fn coalescing_update_replaces_only_supplied_fields() {
    let mut store = EventStore::new();
    let created = store.create(event_req("orig"), 500).unwrap();
    let patch = UpdateEventRequest {
        title: Some("renamed".to_string()),
        description: None,
        event_type: None,
        image_id: Some(9),
        event_date: None,
        start_time: None,
        end_time: None,
        location: None,
        is_published: Some(true),
    };
    let updated = store.update(created.id, patch, 600).unwrap();
    assert_eq!(updated.title, "renamed");
    assert_eq!(updated.image_id, Some(9));
    assert!(updated.is_published);
    assert_eq!(updated.description, created.description);
    assert_eq!(updated.location, created.location);
    assert_eq!(updated.created_at, 500);
    assert_eq!(updated.updated_at, 600);
}

#[test]
fn missing_ids_always_yield_not_found() {
    let mut store = EventStore::new();
    store.create(event_req("only"), 100).unwrap();
    assert!(matches!(store.get(77), Err(AppError::NotFound(_))));
    assert!(matches!(
        store.update(77, empty_event_patch(), 200),
        Err(AppError::NotFound(_))
    ));
    assert!(matches!(store.delete(77), Err(AppError::NotFound(_))));
    // a second delete of the same id is NotFound, not a silent success
    store.delete(1).unwrap();
    assert!(matches!(store.delete(1), Err(AppError::NotFound(_))));

    let mut gallery = GalleryStore::new();
    assert!(matches!(gallery.get(5), Err(AppError::NotFound(_))));
    assert!(matches!(
        gallery.update(
            5,
            UpdateGalleryItemRequest {
                title: None,
                description: None,
                image_id: None,
                display_order: None,
                is_featured: None,
                gallery_category: None,
            },
            10
        ),
        Err(AppError::NotFound(_))
    ));
    assert!(matches!(gallery.delete(5), Err(AppError::NotFound(_))));

    let mut team = TeamStore::new();
    assert!(matches!(team.get(3), Err(AppError::NotFound(_))));
    assert!(matches!(
        team.update(
            3,
            UpdateTeamMemberRequest {
                name: None,
                position: None,
                bio: None,
                email: None,
                phone: None,
                image_id: None,
                display_order: None,
                is_active: None,
            },
            10
        ),
        Err(AppError::NotFound(_))
    ));
    assert!(matches!(team.delete(3), Err(AppError::NotFound(_))));
}

#[test]
fn gallery_listing_orders_nulls_last() {
    let mut gallery = GalleryStore::new();
    for order in [Some(3), None, Some(1)] {
        gallery
            .create(
                CreateGalleryItemRequest {
                    title: None,
                    description: None,
                    display_order: order,
                    gallery_category: None,
                },
                50,
            )
            .unwrap();
    }
    let listed = gallery.list();
    let orders: Vec<Option<i32>> = listed.iter().map(|g| g.display_order).collect();
    assert_eq!(orders, vec![Some(1), Some(3), None]);
}

#[test]
fn event_listing_keeps_only_published_newest_first() {
    let mut store = EventStore::new();
    let a = store.create(event_req("old"), 1).unwrap();
    let b = store.create(event_req("new"), 2).unwrap();
    let c = store
        .create(
            CreateEventRequest {
                title: "dateless".to_string(),
                description: None,
                event_type: None,
                event_date: None,
                start_time: None,
                end_time: None,
                location: None,
            },
            3,
        )
        .unwrap();
    let d = store.create(event_req("hidden"), 4).unwrap();
    let publish = |id: i32, date: Option<i64>, store: &mut EventStore| {
        store
            .update(
                id,
                UpdateEventRequest {
                    title: None,
                    description: None,
                    event_type: None,
                    image_id: None,
                    event_date: date,
                    start_time: None,
                    end_time: None,
                    location: None,
                    is_published: Some(true),
                },
                10,
            )
            .unwrap();
    };
    publish(a.id, Some(100), &mut store);
    publish(b.id, Some(200), &mut store);
    publish(c.id, None, &mut store);
    let _ = d; // stays unpublished
    let listed = store.list();
    let titles: Vec<String> = listed.iter().map(|e| e.title.clone()).collect();
    assert_eq!(titles.len(), 3);
    assert_eq!(titles[0], "new");
    assert_eq!(titles[1], "old");
    assert_eq!(titles[2], "dateless");
}

#[test]
fn team_listing_keeps_only_active_members() {
    let mut team = TeamStore::new();
    for (name, order, active) in
        [("second", Some(2), true), ("first", Some(1), true), ("gone", Some(0), false)]
    {
        let m = team
            .create(
                CreateTeamMemberRequest {
                    name: name.to_string(),
                    position: "p".to_string(),
                    bio: None,
                    email: None,
                    phone: None,
                    display_order: order,
                },
                7,
            )
            .unwrap();
        if !active {
            team.update(
                m.id,
                UpdateTeamMemberRequest {
                    name: None,
                    position: None,
                    bio: None,
                    email: None,
                    phone: None,
                    image_id: None,
                    display_order: None,
                    is_active: Some(false),
                },
                8,
            )
            .unwrap();
        }
    }
    let listed = team.list();
    let names: Vec<String> = listed.iter().map(|m| m.name.clone()).collect();
    assert_eq!(names, vec!["first".to_string(), "second".to_string()]);
}

#[test]
fn projection_substitutes_image_url() {
    let mut store = EventStore::new();
    let created = store.create(event_req("pic"), 5).unwrap();
    let updated = store
        .update(
            created.id,
            UpdateEventRequest {
                title: None,
                description: None,
                event_type: None,
                image_id: Some(42),
                event_date: None,
                start_time: None,
                end_time: None,
                location: None,
                is_published: None,
            },
            6,
        )
        .unwrap();
    let with_image = event_to_response(&updated);
    assert_eq!(with_image.image_url, Some("/api/images/42".to_string()));
    let without_image = event_to_response(&created);
    assert_eq!(without_image.image_url, None);

    let mut gallery = GalleryStore::new();
    let g = gallery
        .create(
            CreateGalleryItemRequest {
                title: Some("t".to_string()),
                description: None,
                display_order: None,
                gallery_category: None,
            },
            5,
        )
        .unwrap();
    let gr = gallery_to_response(&g);
    assert_eq!(gr.image_url, None);
    assert_eq!(gr.title, Some("t".to_string()));
}

#[test]
fn event_date_can_never_be_cleared_by_update() {
    // The patch shape conflates "absent" and "null": supplying no date
    // keeps the stored one, so a date can only be replaced, never cleared.
    let mut store = EventStore::new();
    let created = store.create(event_req("dated"), 5).unwrap();
    assert_eq!(created.event_date, Some(19800));
    let updated = store.update(created.id, empty_event_patch(), 6).unwrap();
    assert_eq!(updated.event_date, Some(19800));
}

#[test]
fn listing_projection_is_elementwise() {
    let mut store = EventStore::new();
    let a = store.create(event_req("a"), 1).unwrap();
    let b = store.create(event_req("b"), 2).unwrap();
    for id in [a.id, b.id] {
        store
            .update(
                id,
                UpdateEventRequest {
                    title: None,
                    description: None,
                    event_type: None,
                    image_id: Some(id),
                    event_date: None,
                    start_time: None,
                    end_time: None,
                    location: None,
                    is_published: Some(true),
                },
                3,
            )
            .unwrap();
    }
    let listed = store.list();
    let responses = events_to_responses(&listed);
    assert_eq!(responses.len(), listed.len());
    for (e, r) in listed.iter().zip(responses.iter()) {
        assert_eq!(r.id, e.id);
        assert_eq!(r.title, e.title);
        assert_eq!(r.image_url, Some(format!("/api/images/{}", e.id)));
    }
}
