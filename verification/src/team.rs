//! The team-member resource: entity, request and response shapes, the
//! verified store with coalescing partial updates, and the projection to
//! the public representation. Listings keep only active members, ordered
//! by `display_order` ascending with absent orders last.

use vstd::prelude::*;
use vstd::relations::sorted_by;
use vstd::string::StringExecFns;

use crate::errors::AppError;
use crate::models::{clone_opt_string, image_url_view, image_url_for};
use crate::order::{asc_nulls_last, leq_fn, lemma_filter_empty, lemma_filter_push, opt_key32,
    sort_for_listing, ListOrdered};
use crate::table::{has_key, key_index, lemma_unique_row, unique_keys, Keyed, Table};

verus! {

/// A persisted team-member row.
#[derive(Debug)]
pub struct TeamMember {
    pub id: i32,
    pub name: String,
    pub position: String,
    pub bio: Option<String>,
    pub email: Option<String>,
    pub phone: Option<String>,
    pub image_id: Option<i32>,
    pub display_order: Option<i32>,
    pub is_active: bool,
    pub created_at: i64,
    pub updated_at: i64,
}

/// The public representation of a team member.
#[derive(Debug)]
pub struct TeamMemberResponse {
    pub id: i32,
    pub name: String,
    pub position: String,
    pub bio: Option<String>,
    pub email: Option<String>,
    pub phone: Option<String>,
    pub image_url: Option<String>,
    pub display_order: Option<i32>,
    pub is_active: bool,
    pub created_at: i64,
}

/// Fields accepted when creating a team member.
#[derive(Debug)]
pub struct CreateTeamMemberRequest {
    pub name: String,
    pub position: String,
    pub bio: Option<String>,
    pub email: Option<String>,
    pub phone: Option<String>,
    pub display_order: Option<i32>,
}

/// A partial update: absent fields keep their stored values.
#[derive(Debug)]
pub struct UpdateTeamMemberRequest {
    pub name: Option<String>,
    pub position: Option<String>,
    pub bio: Option<String>,
    pub email: Option<String>,
    pub phone: Option<String>,
    pub image_id: Option<i32>,
    pub display_order: Option<i32>,
    pub is_active: Option<bool>,
}

impl Clone for TeamMember {
    fn clone(&self) -> (res: Self)
        ensures
            res == *self,
    {
        TeamMember {
            id: self.id,
            name: self.name.clone(),
            position: self.position.clone(),
            bio: clone_opt_string(&self.bio),
            email: clone_opt_string(&self.email),
            phone: clone_opt_string(&self.phone),
            image_id: self.image_id,
            display_order: self.display_order,
            is_active: self.is_active,
            created_at: self.created_at,
            updated_at: self.updated_at,
        }
    }
}

impl Keyed for TeamMember {
    open spec fn key(self) -> i32 {
        self.id
    }

    fn key_of(&self) -> (k: i32) {
        self.id
    }
}

impl ListOrdered for TeamMember {
    /// Team members list by display order, ascending, unordered members last.
    open spec fn leq(self, other: Self) -> bool {
        asc_nulls_last(opt_key32(self.display_order), opt_key32(other.display_order))
    }

    proof fn lemma_total(a: Self, b: Self) {
    }

    proof fn lemma_trans(a: Self, b: Self, c: Self) {
    }

    fn le(&self, other: &Self) -> (r: bool) {
        match (self.display_order, other.display_order) {
            (Some(x), Some(y)) => x <= y,
            (Some(_), None) => true,
            (None, Some(_)) => false,
            (None, None) => true,
        }
    }
}

/// The row a creation request persists: a fresh identity, the supplied
/// fields, no image, active, both timestamps set to `now`.
pub open spec fn member_from_create(req: CreateTeamMemberRequest, id: i32, now: i64) -> TeamMember {
    TeamMember {
        id,
        name: req.name,
        position: req.position,
        bio: req.bio,
        email: req.email,
        phone: req.phone,
        image_id: None,
        display_order: req.display_order,
        is_active: true,
        created_at: now,
        updated_at: now,
    }
}

/// The coalescing partial update: a supplied field replaces the stored
/// one, an absent field keeps it, and the modification timestamp becomes
/// `now`.
pub open spec fn apply_member_update(
    e: TeamMember,
    u: UpdateTeamMemberRequest,
    now: i64,
) -> TeamMember {
    TeamMember {
        id: e.id,
        name: match u.name {
            Some(n) => n,
            None => e.name,
        },
        position: match u.position {
            Some(p) => p,
            None => e.position,
        },
        bio: match u.bio {
            Some(b) => Some(b),
            None => e.bio,
        },
        email: match u.email {
            Some(m) => Some(m),
            None => e.email,
        },
        phone: match u.phone {
            Some(p) => Some(p),
            None => e.phone,
        },
        image_id: match u.image_id {
            Some(i) => Some(i),
            None => e.image_id,
        },
        display_order: match u.display_order {
            Some(o) => Some(o),
            None => e.display_order,
        },
        is_active: match u.is_active {
            Some(a) => a,
            None => e.is_active,
        },
        created_at: e.created_at,
        updated_at: now,
    }
}

/// The update that supplies no field at all.
pub open spec fn empty_member_update() -> UpdateTeamMemberRequest {
    UpdateTeamMemberRequest {
        name: None,
        position: None,
        bio: None,
        email: None,
        phone: None,
        image_id: None,
        display_order: None,
        is_active: None,
    }
}

/// An empty patch changes only the modification timestamp.
pub proof fn lemma_member_empty_update(e: TeamMember, now: i64)
    ensures
        apply_member_update(e, empty_member_update(), now) == (TeamMember {
            updated_at: now,
            ..e
        }),
{
}

/// How a team member projects to its public representation.
pub open spec fn member_projects_to(e: TeamMember, r: TeamMemberResponse) -> bool {
    &&& r.id == e.id
    &&& r.name == e.name
    &&& r.position == e.position
    &&& r.bio == e.bio
    &&& r.email == e.email
    &&& r.phone == e.phone
    &&& match e.image_id {
        Some(i) => r.image_url matches Some(u) && u@ == image_url_view(i as int),
        None => r.image_url is None,
    }
    &&& r.display_order == e.display_order
    &&& r.is_active == e.is_active
    &&& r.created_at == e.created_at
}

/// Projects a team member; no store access is involved.
pub fn member_to_response(e: &TeamMember) -> (r: TeamMemberResponse)
    ensures
        member_projects_to(*e, r),
{
    TeamMemberResponse {
        id: e.id,
        name: e.name.clone(),
        position: e.position.clone(),
        bio: clone_opt_string(&e.bio),
        email: clone_opt_string(&e.email),
        phone: clone_opt_string(&e.phone),
        image_url: match e.image_id {
            Some(i) => Some(image_url_for(i)),
            None => None,
        },
        display_order: e.display_order,
        is_active: e.is_active,
        created_at: e.created_at,
    }
}

/// Projects a listing, element for element.
pub fn members_to_responses(v: &Vec<TeamMember>) -> (r: Vec<TeamMemberResponse>)
    ensures
        r@.len() == v@.len(),
        forall|i: int| 0 <= i < v@.len() ==> member_projects_to(v@[i], #[trigger] r@[i]),
{
    let mut out: Vec<TeamMemberResponse> = Vec::new();
    let mut i: usize = 0;
    while i < v.len()
        invariant
            i <= v@.len(),
            out@.len() == i,
            forall|j: int| 0 <= j < i ==> member_projects_to(v@[j], #[trigger] out@[j]),
        decreases v@.len() - i,
    {
        out.push(member_to_response(&v[i]));
        i += 1;
    }
    out
}

/// The listing filter: only active members are listed.
pub open spec fn active_filter() -> spec_fn(TeamMember) -> bool {
    |e: TeamMember| e.is_active
}

/// The team-member repository: create, list, get, update, delete over
/// the identity-keyed table.
pub struct TeamStore {
    table: Table<TeamMember>,
}

impl TeamStore {
    /// The persisted rows, in insertion order.
    pub closed spec fn rows(self) -> Seq<TeamMember> {
        self.table.rows()
    }

    /// The identity the next creation will receive.
    pub closed spec fn next(self) -> int {
        self.table.next()
    }

    /// Identities are in `[1, next)` and pairwise distinct.
    pub open spec fn wf(self) -> bool {
        &&& 1 <= self.next() <= i32::MAX
        &&& forall|i: int|
            0 <= i < self.rows().len() ==> 1 <= #[trigger] self.rows()[i].id < self.next()
        &&& unique_keys(self.rows())
    }

    /// An empty store.
    pub fn new() -> (s: Self)
        ensures
            s.wf(),
            s.rows() == Seq::<TeamMember>::empty(),
            s.next() == 1,
    {
        TeamStore { table: Table::new() }
    }

    /// Inserts a new team member with a fresh identity, the documented
    /// defaults (members start active) and both timestamps set to `now`.
    pub fn create(&mut self, req: CreateTeamMemberRequest, now: i64) -> (r: Result<
        TeamMember,
        AppError,
    >)
        requires
            old(self).wf(),
        ensures
            final(self).wf(),
            old(self).next() < i32::MAX ==> (r matches Ok(e)
                && e == member_from_create(req, old(self).next() as i32, now)
                && e.is_active
                && !has_key(old(self).rows(), e.id)
                && has_key(final(self).rows(), e.id)
                && final(self).rows() == old(self).rows().push(e)
                && final(self).next() == old(self).next() + 1),
            old(self).next() == i32::MAX ==> (r matches Err(err)
                && err matches AppError::DatabaseError(m)
                && m@ == "identity space exhausted"@
                && *final(self) == *old(self)),
    {
        match self.table.fresh_key() {
            Some(id) => {
                let e = TeamMember {
                    id,
                    name: req.name,
                    position: req.position,
                    bio: req.bio,
                    email: req.email,
                    phone: req.phone,
                    image_id: None,
                    display_order: req.display_order,
                    is_active: true,
                    created_at: now,
                    updated_at: now,
                };
                let stored = e.clone();
                self.table.insert(stored);
                proof {
                    assert(self.rows()[self.rows().len() - 1].key() == e.id);
                }
                Ok(e)
            },
            None => Err(AppError::DatabaseError(String::from_str("identity space exhausted"))),
        }
    }

    /// Fetches the team member with the given identity, active or not;
    /// yields `NotFound` exactly when no row has it.
    pub fn get(&self, id: i32) -> (r: Result<TeamMember, AppError>)
        requires
            self.wf(),
        ensures
            has_key(self.rows(), id) ==> (r matches Ok(e)
                && e == self.rows()[key_index(self.rows(), id)]
                && self.rows().contains(e)
                && e.id == id),
            !has_key(self.rows(), id) ==> (r matches Err(err)
                && err matches AppError::NotFound(m)
                && m@ == "Team member not found"@),
    {
        match self.table.find_index(id) {
            Some(i) => {
                let e = self.table.row_at(i).clone();
                proof {
                    assert(self.rows()[i as int] == e);
                }
                Ok(e)
            },
            None => Err(AppError::NotFound(String::from_str("Team member not found"))),
        }
    }

    /// Applies a coalescing partial update to the team member with the
    /// given identity; yields `NotFound` exactly when no row has it.
    pub fn update(&mut self, id: i32, req: UpdateTeamMemberRequest, now: i64) -> (r: Result<
        TeamMember,
        AppError,
    >)
        requires
            old(self).wf(),
        ensures
            final(self).wf(),
            final(self).next() == old(self).next(),
            has_key(old(self).rows(), id) ==> (r matches Ok(e)
                && e == apply_member_update(
                old(self).rows()[key_index(old(self).rows(), id)],
                req,
                now,
            )
                && final(self).rows() == old(self).rows().update(
                key_index(old(self).rows(), id),
                e,
            )),
            !has_key(old(self).rows(), id) ==> (r matches Err(err)
                && err matches AppError::NotFound(m)
                && m@ == "Team member not found"@
                && *final(self) == *old(self)),
    {
        match self.table.find_index(id) {
            Some(i) => {
                let cur = self.table.row_at(i);
                let e = TeamMember {
                    id: cur.id,
                    name: match &req.name {
                        Some(n) => n.clone(),
                        None => cur.name.clone(),
                    },
                    position: match &req.position {
                        Some(p) => p.clone(),
                        None => cur.position.clone(),
                    },
                    bio: match req.bio {
                        Some(b) => Some(b),
                        None => clone_opt_string(&cur.bio),
                    },
                    email: match req.email {
                        Some(m) => Some(m),
                        None => clone_opt_string(&cur.email),
                    },
                    phone: match req.phone {
                        Some(p) => Some(p),
                        None => clone_opt_string(&cur.phone),
                    },
                    image_id: match req.image_id {
                        Some(im) => Some(im),
                        None => cur.image_id,
                    },
                    display_order: match req.display_order {
                        Some(o) => Some(o),
                        None => cur.display_order,
                    },
                    is_active: match req.is_active {
                        Some(a) => a,
                        None => cur.is_active,
                    },
                    created_at: cur.created_at,
                    updated_at: now,
                };
                let stored = e.clone();
                self.table.replace_at(i, stored);
                Ok(e)
            },
            None => Err(AppError::NotFound(String::from_str("Team member not found"))),
        }
    }

    /// Removes the team member with the given identity; yields `NotFound`
    /// exactly when no row has it.
    pub fn delete(&mut self, id: i32) -> (r: Result<(), AppError>)
        requires
            old(self).wf(),
        ensures
            final(self).wf(),
            final(self).next() == old(self).next(),
            has_key(old(self).rows(), id) ==> (r is Ok && final(self).rows() == old(
                self,
            ).rows().remove(key_index(old(self).rows(), id))),
            !has_key(old(self).rows(), id) ==> (r matches Err(err)
                && err matches AppError::NotFound(m)
                && m@ == "Team member not found"@
                && *final(self) == *old(self)),
    {
        match self.table.find_index(id) {
            Some(i) => {
                self.table.remove_at(i);
                Ok(())
            },
            None => Err(AppError::NotFound(String::from_str("Team member not found"))),
        }
    }

    /// Lists exactly the active team members, by display order ascending
    /// with unordered members last.
    pub fn list(&self) -> (r: Vec<TeamMember>)
        requires
            self.wf(),
        ensures
            sorted_by(r@, leq_fn::<TeamMember>()),
            r@.to_multiset() == self.rows().filter(active_filter()).to_multiset(),
    {
        let mut active: Vec<TeamMember> = Vec::new();
        let n = self.table.len();
        let mut i: usize = 0;
        proof {
            assert(self.rows().take(0) =~= Seq::<TeamMember>::empty());
            lemma_filter_empty(active_filter());
        }
        while i < n
            invariant
                self.wf(),
                i <= n,
                n == self.rows().len(),
                active@ == self.rows().take(i as int).filter(active_filter()),
            decreases n - i,
        {
            let e = self.table.row_at(i);
            if e.is_active {
                active.push(e.clone());
            }
            proof {
                assert(self.rows().take(i + 1) =~= self.rows().take(i as int).push(
                    self.rows()[i as int],
                ));
                lemma_filter_push(
                    self.rows().take(i as int),
                    self.rows()[i as int],
                    active_filter(),
                );
            }
            i += 1;
        }
        proof {
            assert(self.rows().take(n as int) =~= self.rows());
        }
        sort_for_listing(active)
    }
}

/// Round trip: a row of the store that carries a just-created identity is
/// the created entity itself, and its fields are exactly the creation
/// fields.
pub proof fn lemma_member_create_get_round_trip(
    pre: TeamStore,
    post: TeamStore,
    req: CreateTeamMemberRequest,
    now: i64,
    e: TeamMember,
)
    requires
        pre.wf(),
        post.wf(),
        e == member_from_create(req, pre.next() as i32, now),
        post.rows() == pre.rows().push(e),
    ensures
        has_key(post.rows(), e.id),
        forall|e2: TeamMember| post.rows().contains(e2) && e2.id == e.id ==> e2 == e,
        e.name == req.name,
        e.position == req.position,
        e.bio == req.bio,
        e.email == req.email,
        e.phone == req.phone,
        e.display_order == req.display_order,
{
    assert(post.rows()[post.rows().len() - 1] == e);
    assert(has_key(post.rows(), e.id));
    assert forall|e2: TeamMember| post.rows().contains(e2) && e2.id == e.id implies e2 == e by {
        lemma_unique_row(post.rows(), e2, e);
    }
}

} // verus!
