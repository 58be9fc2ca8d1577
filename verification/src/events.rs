//! The event resource: entity, request and response shapes, the verified
//! store with coalescing partial updates, and the projection to the public
//! representation.
//!
//! Dates are carried as day numbers and times as seconds, so that every
//! field is a plain value.

use vstd::prelude::*;
use vstd::relations::sorted_by;
use vstd::string::StringExecFns;

use crate::errors::AppError;
use crate::models::{clone_opt_string, image_url_view, image_url_for};
use crate::order::{desc_nulls_last, leq_fn, lemma_filter_push, opt_key64, sort_for_listing,
    ListOrdered};
use crate::table::{has_key, key_index, lemma_unique_row, unique_keys, Keyed, Table};

verus! {

/// A persisted event row.
#[derive(Debug)]
pub struct Event {
    pub id: i32,
    pub title: String,
    pub description: Option<String>,
    pub event_type: Option<String>,
    pub image_id: Option<i32>,
    /// Day number of the event's date, if any.
    pub event_date: Option<i64>,
    /// Seconds into the day.
    pub start_time: Option<i64>,
    pub end_time: Option<i64>,
    pub location: Option<String>,
    pub is_published: bool,
    pub created_at: i64,
    pub updated_at: i64,
}

/// The public representation of an event: `image_id` is replaced by the
/// image URL and the modification timestamp is not exposed.
#[derive(Debug)]
pub struct EventResponse {
    pub id: i32,
    pub title: String,
    pub description: Option<String>,
    pub event_type: Option<String>,
    pub image_url: Option<String>,
    pub event_date: Option<i64>,
    pub start_time: Option<i64>,
    pub end_time: Option<i64>,
    pub location: Option<String>,
    pub is_published: bool,
    pub created_at: i64,
}

/// Fields accepted when creating an event.
#[derive(Debug)]
pub struct CreateEventRequest {
    pub title: String,
    pub description: Option<String>,
    pub event_type: Option<String>,
    pub event_date: Option<i64>,
    pub start_time: Option<i64>,
    pub end_time: Option<i64>,
    pub location: Option<String>,
}

/// A partial update: absent fields keep their stored values.
#[derive(Debug)]
pub struct UpdateEventRequest {
    pub title: Option<String>,
    pub description: Option<String>,
    pub event_type: Option<String>,
    pub image_id: Option<i32>,
    pub event_date: Option<i64>,
    pub start_time: Option<i64>,
    pub end_time: Option<i64>,
    pub location: Option<String>,
    pub is_published: Option<bool>,
}

impl Clone for Event {
    fn clone(&self) -> (res: Self)
        ensures
            res == *self,
    {
        Event {
            id: self.id,
            title: self.title.clone(),
            description: clone_opt_string(&self.description),
            event_type: clone_opt_string(&self.event_type),
            image_id: self.image_id,
            event_date: self.event_date,
            start_time: self.start_time,
            end_time: self.end_time,
            location: clone_opt_string(&self.location),
            is_published: self.is_published,
            created_at: self.created_at,
            updated_at: self.updated_at,
        }
    }
}

impl Keyed for Event {
    open spec fn key(self) -> i32 {
        self.id
    }

    fn key_of(&self) -> (k: i32) {
        self.id
    }
}

impl ListOrdered for Event {
    /// Events list by date, newest first, dateless events last.
    open spec fn leq(self, other: Self) -> bool {
        desc_nulls_last(opt_key64(self.event_date), opt_key64(other.event_date))
    }

    proof fn lemma_total(a: Self, b: Self) {
    }

    proof fn lemma_trans(a: Self, b: Self, c: Self) {
    }

    fn le(&self, other: &Self) -> (r: bool) {
        match (self.event_date, other.event_date) {
            (Some(x), Some(y)) => y <= x,
            (Some(_), None) => true,
            (None, Some(_)) => false,
            (None, None) => true,
        }
    }
}

/// The row a creation request persists: a fresh identity, the supplied
/// fields, no image, unpublished, both timestamps set to `now`.
pub open spec fn event_from_create(req: CreateEventRequest, id: i32, now: i64) -> Event {
    Event {
        id,
        title: req.title,
        description: req.description,
        event_type: req.event_type,
        image_id: None,
        event_date: req.event_date,
        start_time: req.start_time,
        end_time: req.end_time,
        location: req.location,
        is_published: false,
        created_at: now,
        updated_at: now,
    }
}

/// The coalescing partial update: a supplied field replaces the stored
/// one, an absent field keeps it, and the modification timestamp becomes
/// `now`. Identity and creation timestamp never change.
pub open spec fn apply_event_update(e: Event, u: UpdateEventRequest, now: i64) -> Event {
    Event {
        id: e.id,
        title: match u.title {
            Some(t) => t,
            None => e.title,
        },
        description: match u.description {
            Some(d) => Some(d),
            None => e.description,
        },
        event_type: match u.event_type {
            Some(t) => Some(t),
            None => e.event_type,
        },
        image_id: match u.image_id {
            Some(i) => Some(i),
            None => e.image_id,
        },
        event_date: match u.event_date {
            Some(d) => Some(d),
            None => e.event_date,
        },
        start_time: match u.start_time {
            Some(t) => Some(t),
            None => e.start_time,
        },
        end_time: match u.end_time {
            Some(t) => Some(t),
            None => e.end_time,
        },
        location: match u.location {
            Some(l) => Some(l),
            None => e.location,
        },
        is_published: match u.is_published {
            Some(p) => p,
            None => e.is_published,
        },
        created_at: e.created_at,
        updated_at: now,
    }
}

/// The update that supplies no field at all.
pub open spec fn empty_event_update() -> UpdateEventRequest {
    UpdateEventRequest {
        title: None,
        description: None,
        event_type: None,
        image_id: None,
        event_date: None,
        start_time: None,
        end_time: None,
        location: None,
        is_published: None,
    }
}

/// An empty patch changes only the modification timestamp.
pub proof fn lemma_event_empty_update(e: Event, now: i64)
    ensures
        apply_event_update(e, empty_event_update(), now) == (Event { updated_at: now, ..e }),
{
}

/// How an event projects to its public representation: every field is
/// kept except that the image identity becomes the image URL and the
/// modification timestamp is dropped.
pub open spec fn event_projects_to(e: Event, r: EventResponse) -> bool {
    &&& r.id == e.id
    &&& r.title == e.title
    &&& r.description == e.description
    &&& r.event_type == e.event_type
    &&& match e.image_id {
        Some(i) => r.image_url matches Some(u) && u@ == image_url_view(i as int),
        None => r.image_url is None,
    }
    &&& r.event_date == e.event_date
    &&& r.start_time == e.start_time
    &&& r.end_time == e.end_time
    &&& r.location == e.location
    &&& r.is_published == e.is_published
    &&& r.created_at == e.created_at
}

/// Projects an event; no store access is involved.
pub fn event_to_response(e: &Event) -> (r: EventResponse)
    ensures
        event_projects_to(*e, r),
{
    EventResponse {
        id: e.id,
        title: e.title.clone(),
        description: clone_opt_string(&e.description),
        event_type: clone_opt_string(&e.event_type),
        image_url: match e.image_id {
            Some(i) => Some(image_url_for(i)),
            None => None,
        },
        event_date: e.event_date,
        start_time: e.start_time,
        end_time: e.end_time,
        location: clone_opt_string(&e.location),
        is_published: e.is_published,
        created_at: e.created_at,
    }
}

/// Projects a listing, element for element.
pub fn events_to_responses(v: &Vec<Event>) -> (r: Vec<EventResponse>)
    ensures
        r@.len() == v@.len(),
        forall|i: int| 0 <= i < v@.len() ==> event_projects_to(v@[i], #[trigger] r@[i]),
{
    let mut out: Vec<EventResponse> = Vec::new();
    let mut i: usize = 0;
    while i < v.len()
        invariant
            i <= v@.len(),
            out@.len() == i,
            forall|j: int| 0 <= j < i ==> event_projects_to(v@[j], #[trigger] out@[j]),
        decreases v@.len() - i,
    {
        out.push(event_to_response(&v[i]));
        i += 1;
    }
    out
}

/// The listing filter: only published events are listed.
pub open spec fn published_filter() -> spec_fn(Event) -> bool {
    |e: Event| e.is_published
}

/// The event repository: create, list, get, update, delete over the
/// identity-keyed table.
pub struct EventStore {
    table: Table<Event>,
}

impl EventStore {
    /// The persisted rows, in insertion order.
    pub closed spec fn rows(self) -> Seq<Event> {
        self.table.rows()
    }

    /// The identity the next creation will receive.
    pub closed spec fn next(self) -> int {
        self.table.next()
    }

    /// Identities are in `[1, next)` and pairwise distinct.
    pub open spec fn wf(self) -> bool {
        &&& 1 <= self.next() <= i32::MAX
        &&& forall|i: int|
            0 <= i < self.rows().len() ==> 1 <= #[trigger] self.rows()[i].id < self.next()
        &&& unique_keys(self.rows())
    }

    /// An empty store.
    pub fn new() -> (s: Self)
        ensures
            s.wf(),
            s.rows() == Seq::<Event>::empty(),
            s.next() == 1,
    {
        EventStore { table: Table::new() }
    }

    /// Inserts a new event with a fresh identity, the documented defaults
    /// and both timestamps set to `now`. Fails only when the identity
    /// space is exhausted.
    pub fn create(&mut self, req: CreateEventRequest, now: i64) -> (r: Result<Event, AppError>)
        requires
            old(self).wf(),
        ensures
            final(self).wf(),
            old(self).next() < i32::MAX ==> (r matches Ok(e)
                && e == event_from_create(req, old(self).next() as i32, now)
                && !e.is_published
                && !has_key(old(self).rows(), e.id)
                && has_key(final(self).rows(), e.id)
                && final(self).rows() == old(self).rows().push(e)
                && final(self).next() == old(self).next() + 1),
            old(self).next() == i32::MAX ==> (r matches Err(err)
                && err matches AppError::DatabaseError(m)
                && m@ == "identity space exhausted"@
                && *final(self) == *old(self)),
    {
        match self.table.fresh_key() {
            Some(id) => {
                let e = Event {
                    id,
                    title: req.title,
                    description: req.description,
                    event_type: req.event_type,
                    image_id: None,
                    event_date: req.event_date,
                    start_time: req.start_time,
                    end_time: req.end_time,
                    location: req.location,
                    is_published: false,
                    created_at: now,
                    updated_at: now,
                };
                let stored = e.clone();
                self.table.insert(stored);
                proof {
                    assert(self.rows()[self.rows().len() - 1].key() == e.id);
                }
                Ok(e)
            },
            None => Err(
                AppError::DatabaseError(String::from_str("identity space exhausted")),
            ),
        }
    }

    /// Fetches the event with the given identity, published or not; yields
    /// `NotFound` exactly when no row has it.
    pub fn get(&self, id: i32) -> (r: Result<Event, AppError>)
        requires
            self.wf(),
        ensures
            has_key(self.rows(), id) ==> (r matches Ok(e)
                && e == self.rows()[key_index(self.rows(), id)]
                && self.rows().contains(e)
                && e.id == id),
            !has_key(self.rows(), id) ==> (r matches Err(err)
                && err matches AppError::NotFound(m)
                && m@ == "Event not found"@),
    {
        match self.table.find_index(id) {
            Some(i) => {
                let e = self.table.row_at(i).clone();
                proof {
                    assert(self.rows()[i as int] == e);
                }
                Ok(e)
            },
            None => Err(AppError::NotFound(String::from_str("Event not found"))),
        }
    }

    /// Applies a coalescing partial update to the event with the given
    /// identity; yields `NotFound` exactly when no row has it.
    pub fn update(&mut self, id: i32, req: UpdateEventRequest, now: i64) -> (r: Result<
        Event,
        AppError,
    >)
        requires
            old(self).wf(),
        ensures
            final(self).wf(),
            final(self).next() == old(self).next(),
            has_key(old(self).rows(), id) ==> (r matches Ok(e)
                && e == apply_event_update(
                old(self).rows()[key_index(old(self).rows(), id)],
                req,
                now,
            )
                && final(self).rows() == old(self).rows().update(
                key_index(old(self).rows(), id),
                e,
            )),
            !has_key(old(self).rows(), id) ==> (r matches Err(err)
                && err matches AppError::NotFound(m)
                && m@ == "Event not found"@
                && *final(self) == *old(self)),
    {
        match self.table.find_index(id) {
            Some(i) => {
                let cur = self.table.row_at(i);
                let e = Event {
                    id: cur.id,
                    title: match &req.title {
                        Some(t) => t.clone(),
                        None => cur.title.clone(),
                    },
                    description: match req.description {
                        Some(d) => Some(d),
                        None => clone_opt_string(&cur.description),
                    },
                    event_type: match req.event_type {
                        Some(t) => Some(t),
                        None => clone_opt_string(&cur.event_type),
                    },
                    image_id: match req.image_id {
                        Some(im) => Some(im),
                        None => cur.image_id,
                    },
                    event_date: match req.event_date {
                        Some(d) => Some(d),
                        None => cur.event_date,
                    },
                    start_time: match req.start_time {
                        Some(t) => Some(t),
                        None => cur.start_time,
                    },
                    end_time: match req.end_time {
                        Some(t) => Some(t),
                        None => cur.end_time,
                    },
                    location: match req.location {
                        Some(l) => Some(l),
                        None => clone_opt_string(&cur.location),
                    },
                    is_published: match req.is_published {
                        Some(p) => p,
                        None => cur.is_published,
                    },
                    created_at: cur.created_at,
                    updated_at: now,
                };
                let stored = e.clone();
                self.table.replace_at(i, stored);
                Ok(e)
            },
            None => Err(AppError::NotFound(String::from_str("Event not found"))),
        }
    }

    /// Removes the event with the given identity; yields `NotFound`
    /// exactly when no row has it, so a second delete of the same
    /// identity fails.
    pub fn delete(&mut self, id: i32) -> (r: Result<(), AppError>)
        requires
            old(self).wf(),
        ensures
            final(self).wf(),
            final(self).next() == old(self).next(),
            has_key(old(self).rows(), id) ==> (r is Ok && final(self).rows() == old(
                self,
            ).rows().remove(key_index(old(self).rows(), id))),
            !has_key(old(self).rows(), id) ==> (r matches Err(err)
                && err matches AppError::NotFound(m)
                && m@ == "Event not found"@
                && *final(self) == *old(self)),
    {
        match self.table.find_index(id) {
            Some(i) => {
                self.table.remove_at(i);
                Ok(())
            },
            None => Err(AppError::NotFound(String::from_str("Event not found"))),
        }
    }

    /// Lists exactly the published events, newest date first, dateless
    /// events last.
    pub fn list(&self) -> (r: Vec<Event>)
        requires
            self.wf(),
        ensures
            sorted_by(r@, leq_fn::<Event>()),
            r@.to_multiset() == self.rows().filter(published_filter()).to_multiset(),
    {
        let mut published: Vec<Event> = Vec::new();
        let n = self.table.len();
        let mut i: usize = 0;
        proof {
            assert(self.rows().take(0) =~= Seq::<Event>::empty());
            crate::order::lemma_filter_empty(published_filter());
        }
        while i < n
            invariant
                self.wf(),
                i <= n,
                n == self.rows().len(),
                published@ == self.rows().take(i as int).filter(published_filter()),
            decreases n - i,
        {
            let e = self.table.row_at(i);
            if e.is_published {
                published.push(e.clone());
            }
            proof {
                assert(self.rows().take(i + 1) =~= self.rows().take(i as int).push(
                    self.rows()[i as int],
                ));
                lemma_filter_push(
                    self.rows().take(i as int),
                    self.rows()[i as int],
                    published_filter(),
                );
            }
            i += 1;
        }
        proof {
            assert(self.rows().take(n as int) =~= self.rows());
        }
        sort_for_listing(published)
    }
}

/// Round trip: a row of the store that carries a just-created identity is
/// the created entity itself, and its fields are exactly the creation
/// fields.
pub proof fn lemma_event_create_get_round_trip(
    pre: EventStore,
    post: EventStore,
    req: CreateEventRequest,
    now: i64,
    e: Event,
)
    requires
        pre.wf(),
        post.wf(),
        e == event_from_create(req, pre.next() as i32, now),
        post.rows() == pre.rows().push(e),
    ensures
        has_key(post.rows(), e.id),
        forall|e2: Event| post.rows().contains(e2) && e2.id == e.id ==> e2 == e,
        e.title == req.title,
        e.description == req.description,
        e.event_type == req.event_type,
        e.event_date == req.event_date,
        e.start_time == req.start_time,
        e.end_time == req.end_time,
        e.location == req.location,
{
    assert(post.rows()[post.rows().len() - 1] == e);
    assert(has_key(post.rows(), e.id));
    assert forall|e2: Event| post.rows().contains(e2) && e2.id == e.id implies e2 == e by {
        lemma_unique_row(post.rows(), e2, e);
    }
}

} // verus!
