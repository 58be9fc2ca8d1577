//! The gallery resource: entity, request and response shapes, the
//! verified store with coalescing partial updates, and the projection to
//! the public representation. Gallery listings are unfiltered, ordered by
//! `display_order` ascending with absent orders last.

use vstd::prelude::*;
use vstd::relations::sorted_by;
use vstd::string::StringExecFns;

use crate::errors::AppError;
use crate::models::{clone_opt_string, image_url_view, image_url_for};
use crate::order::{asc_nulls_last, leq_fn, opt_key32, sort_for_listing, ListOrdered};
use crate::table::{has_key, key_index, lemma_unique_row, unique_keys, Keyed, Table};

verus! {

/// A persisted gallery row.
#[derive(Debug)]
pub struct GalleryItem {
    pub id: i32,
    pub title: Option<String>,
    pub description: Option<String>,
    pub image_id: Option<i32>,
    pub display_order: Option<i32>,
    pub is_featured: bool,
    pub gallery_category: Option<String>,
    pub created_at: i64,
    pub updated_at: i64,
}

/// The public representation of a gallery item.
#[derive(Debug)]
pub struct GalleryItemResponse {
    pub id: i32,
    pub title: Option<String>,
    pub description: Option<String>,
    pub image_url: Option<String>,
    pub display_order: Option<i32>,
    pub is_featured: bool,
    pub gallery_category: Option<String>,
    pub created_at: i64,
}

/// Fields accepted when creating a gallery item.
#[derive(Debug)]
pub struct CreateGalleryItemRequest {
    pub title: Option<String>,
    pub description: Option<String>,
    pub display_order: Option<i32>,
    pub gallery_category: Option<String>,
}

/// A partial update: absent fields keep their stored values.
#[derive(Debug)]
pub struct UpdateGalleryItemRequest {
    pub title: Option<String>,
    pub description: Option<String>,
    pub image_id: Option<i32>,
    pub display_order: Option<i32>,
    pub is_featured: Option<bool>,
    pub gallery_category: Option<String>,
}

impl Clone for GalleryItem {
    fn clone(&self) -> (res: Self)
        ensures
            res == *self,
    {
        GalleryItem {
            id: self.id,
            title: clone_opt_string(&self.title),
            description: clone_opt_string(&self.description),
            image_id: self.image_id,
            display_order: self.display_order,
            is_featured: self.is_featured,
            gallery_category: clone_opt_string(&self.gallery_category),
            created_at: self.created_at,
            updated_at: self.updated_at,
        }
    }
}

impl Keyed for GalleryItem {
    open spec fn key(self) -> i32 {
        self.id
    }

    fn key_of(&self) -> (k: i32) {
        self.id
    }
}

impl ListOrdered for GalleryItem {
    /// Gallery items list by display order, ascending, unordered items last.
    open spec fn leq(self, other: Self) -> bool {
        asc_nulls_last(opt_key32(self.display_order), opt_key32(other.display_order))
    }

    proof fn lemma_total(a: Self, b: Self) {
    }

    proof fn lemma_trans(a: Self, b: Self, c: Self) {
    }

    fn le(&self, other: &Self) -> (r: bool) {
        match (self.display_order, other.display_order) {
            (Some(x), Some(y)) => x <= y,
            (Some(_), None) => true,
            (None, Some(_)) => false,
            (None, None) => true,
        }
    }
}

/// The row a creation request persists: a fresh identity, the supplied
/// fields, no image, not featured, both timestamps set to `now`.
pub open spec fn gallery_from_create(req: CreateGalleryItemRequest, id: i32, now: i64) -> GalleryItem {
    GalleryItem {
        id,
        title: req.title,
        description: req.description,
        image_id: None,
        display_order: req.display_order,
        is_featured: false,
        gallery_category: req.gallery_category,
        created_at: now,
        updated_at: now,
    }
}

/// The coalescing partial update: a supplied field replaces the stored
/// one, an absent field keeps it, and the modification timestamp becomes
/// `now`.
pub open spec fn apply_gallery_update(
    e: GalleryItem,
    u: UpdateGalleryItemRequest,
    now: i64,
) -> GalleryItem {
    GalleryItem {
        id: e.id,
        title: match u.title {
            Some(t) => Some(t),
            None => e.title,
        },
        description: match u.description {
            Some(d) => Some(d),
            None => e.description,
        },
        image_id: match u.image_id {
            Some(i) => Some(i),
            None => e.image_id,
        },
        display_order: match u.display_order {
            Some(o) => Some(o),
            None => e.display_order,
        },
        is_featured: match u.is_featured {
            Some(f) => f,
            None => e.is_featured,
        },
        gallery_category: match u.gallery_category {
            Some(c) => Some(c),
            None => e.gallery_category,
        },
        created_at: e.created_at,
        updated_at: now,
    }
}

/// The update that supplies no field at all.
pub open spec fn empty_gallery_update() -> UpdateGalleryItemRequest {
    UpdateGalleryItemRequest {
        title: None,
        description: None,
        image_id: None,
        display_order: None,
        is_featured: None,
        gallery_category: None,
    }
}

/// An empty patch changes only the modification timestamp.
pub proof fn lemma_gallery_empty_update(e: GalleryItem, now: i64)
    ensures
        apply_gallery_update(e, empty_gallery_update(), now) == (GalleryItem {
            updated_at: now,
            ..e
        }),
{
}

/// How a gallery item projects to its public representation.
pub open spec fn gallery_projects_to(e: GalleryItem, r: GalleryItemResponse) -> bool {
    &&& r.id == e.id
    &&& r.title == e.title
    &&& r.description == e.description
    &&& match e.image_id {
        Some(i) => r.image_url matches Some(u) && u@ == image_url_view(i as int),
        None => r.image_url is None,
    }
    &&& r.display_order == e.display_order
    &&& r.is_featured == e.is_featured
    &&& r.gallery_category == e.gallery_category
    &&& r.created_at == e.created_at
}

/// Projects a gallery item; no store access is involved.
pub fn gallery_to_response(e: &GalleryItem) -> (r: GalleryItemResponse)
    ensures
        gallery_projects_to(*e, r),
{
    GalleryItemResponse {
        id: e.id,
        title: clone_opt_string(&e.title),
        description: clone_opt_string(&e.description),
        image_url: match e.image_id {
            Some(i) => Some(image_url_for(i)),
            None => None,
        },
        display_order: e.display_order,
        is_featured: e.is_featured,
        gallery_category: clone_opt_string(&e.gallery_category),
        created_at: e.created_at,
    }
}

/// Projects a listing, element for element.
pub fn gallery_to_responses(v: &Vec<GalleryItem>) -> (r: Vec<GalleryItemResponse>)
    ensures
        r@.len() == v@.len(),
        forall|i: int| 0 <= i < v@.len() ==> gallery_projects_to(v@[i], #[trigger] r@[i]),
{
    let mut out: Vec<GalleryItemResponse> = Vec::new();
    let mut i: usize = 0;
    while i < v.len()
        invariant
            i <= v@.len(),
            out@.len() == i,
            forall|j: int| 0 <= j < i ==> gallery_projects_to(v@[j], #[trigger] out@[j]),
        decreases v@.len() - i,
    {
        out.push(gallery_to_response(&v[i]));
        i += 1;
    }
    out
}

/// The gallery repository: create, list, get, update, delete over the
/// identity-keyed table.
pub struct GalleryStore {
    table: Table<GalleryItem>,
}

impl GalleryStore {
    /// The persisted rows, in insertion order.
    pub closed spec fn rows(self) -> Seq<GalleryItem> {
        self.table.rows()
    }

    /// The identity the next creation will receive.
    pub closed spec fn next(self) -> int {
        self.table.next()
    }

    /// Identities are in `[1, next)` and pairwise distinct.
    pub open spec fn wf(self) -> bool {
        &&& 1 <= self.next() <= i32::MAX
        &&& forall|i: int|
            0 <= i < self.rows().len() ==> 1 <= #[trigger] self.rows()[i].id < self.next()
        &&& unique_keys(self.rows())
    }

    /// An empty store.
    pub fn new() -> (s: Self)
        ensures
            s.wf(),
            s.rows() == Seq::<GalleryItem>::empty(),
            s.next() == 1,
    {
        GalleryStore { table: Table::new() }
    }

    /// Inserts a new gallery item with a fresh identity, the documented
    /// defaults and both timestamps set to `now`.
    pub fn create(&mut self, req: CreateGalleryItemRequest, now: i64) -> (r: Result<
        GalleryItem,
        AppError,
    >)
        requires
            old(self).wf(),
        ensures
            final(self).wf(),
            old(self).next() < i32::MAX ==> (r matches Ok(e)
                && e == gallery_from_create(req, old(self).next() as i32, now)
                && !e.is_featured
                && !has_key(old(self).rows(), e.id)
                && has_key(final(self).rows(), e.id)
                && final(self).rows() == old(self).rows().push(e)
                && final(self).next() == old(self).next() + 1),
            old(self).next() == i32::MAX ==> (r matches Err(err)
                && err matches AppError::DatabaseError(m)
                && m@ == "identity space exhausted"@
                && *final(self) == *old(self)),
    {
        match self.table.fresh_key() {
            Some(id) => {
                let e = GalleryItem {
                    id,
                    title: req.title,
                    description: req.description,
                    image_id: None,
                    display_order: req.display_order,
                    is_featured: false,
                    gallery_category: req.gallery_category,
                    created_at: now,
                    updated_at: now,
                };
                let stored = e.clone();
                self.table.insert(stored);
                proof {
                    assert(self.rows()[self.rows().len() - 1].key() == e.id);
                }
                Ok(e)
            },
            None => Err(AppError::DatabaseError(String::from_str("identity space exhausted"))),
        }
    }

    /// Fetches the gallery item with the given identity; yields `NotFound`
    /// exactly when no row has it.
    pub fn get(&self, id: i32) -> (r: Result<GalleryItem, AppError>)
        requires
            self.wf(),
        ensures
            has_key(self.rows(), id) ==> (r matches Ok(e)
                && e == self.rows()[key_index(self.rows(), id)]
                && self.rows().contains(e)
                && e.id == id),
            !has_key(self.rows(), id) ==> (r matches Err(err)
                && err matches AppError::NotFound(m)
                && m@ == "Gallery item not found"@),
    {
        match self.table.find_index(id) {
            Some(i) => {
                let e = self.table.row_at(i).clone();
                proof {
                    assert(self.rows()[i as int] == e);
                }
                Ok(e)
            },
            None => Err(AppError::NotFound(String::from_str("Gallery item not found"))),
        }
    }

    /// Applies a coalescing partial update to the gallery item with the
    /// given identity; yields `NotFound` exactly when no row has it.
    pub fn update(&mut self, id: i32, req: UpdateGalleryItemRequest, now: i64) -> (r: Result<
        GalleryItem,
        AppError,
    >)
        requires
            old(self).wf(),
        ensures
            final(self).wf(),
            final(self).next() == old(self).next(),
            has_key(old(self).rows(), id) ==> (r matches Ok(e)
                && e == apply_gallery_update(
                old(self).rows()[key_index(old(self).rows(), id)],
                req,
                now,
            )
                && final(self).rows() == old(self).rows().update(
                key_index(old(self).rows(), id),
                e,
            )),
            !has_key(old(self).rows(), id) ==> (r matches Err(err)
                && err matches AppError::NotFound(m)
                && m@ == "Gallery item not found"@
                && *final(self) == *old(self)),
    {
        match self.table.find_index(id) {
            Some(i) => {
                let cur = self.table.row_at(i);
                let e = GalleryItem {
                    id: cur.id,
                    title: match req.title {
                        Some(t) => Some(t),
                        None => clone_opt_string(&cur.title),
                    },
                    description: match req.description {
                        Some(d) => Some(d),
                        None => clone_opt_string(&cur.description),
                    },
                    image_id: match req.image_id {
                        Some(im) => Some(im),
                        None => cur.image_id,
                    },
                    display_order: match req.display_order {
                        Some(o) => Some(o),
                        None => cur.display_order,
                    },
                    is_featured: match req.is_featured {
                        Some(f) => f,
                        None => cur.is_featured,
                    },
                    gallery_category: match req.gallery_category {
                        Some(c) => Some(c),
                        None => clone_opt_string(&cur.gallery_category),
                    },
                    created_at: cur.created_at,
                    updated_at: now,
                };
                let stored = e.clone();
                self.table.replace_at(i, stored);
                Ok(e)
            },
            None => Err(AppError::NotFound(String::from_str("Gallery item not found"))),
        }
    }

    /// Removes the gallery item with the given identity; yields `NotFound`
    /// exactly when no row has it.
    pub fn delete(&mut self, id: i32) -> (r: Result<(), AppError>)
        requires
            old(self).wf(),
        ensures
            final(self).wf(),
            final(self).next() == old(self).next(),
            has_key(old(self).rows(), id) ==> (r is Ok && final(self).rows() == old(
                self,
            ).rows().remove(key_index(old(self).rows(), id))),
            !has_key(old(self).rows(), id) ==> (r matches Err(err)
                && err matches AppError::NotFound(m)
                && m@ == "Gallery item not found"@
                && *final(self) == *old(self)),
    {
        match self.table.find_index(id) {
            Some(i) => {
                self.table.remove_at(i);
                Ok(())
            },
            None => Err(AppError::NotFound(String::from_str("Gallery item not found"))),
        }
    }

    /// Lists every gallery item, ordered by display order ascending with
    /// unordered items last.
    pub fn list(&self) -> (r: Vec<GalleryItem>)
        requires
            self.wf(),
        ensures
            sorted_by(r@, leq_fn::<GalleryItem>()),
            r@.to_multiset() == self.rows().to_multiset(),
    {
        let mut all: Vec<GalleryItem> = Vec::new();
        let n = self.table.len();
        let mut i: usize = 0;
        while i < n
            invariant
                self.wf(),
                i <= n,
                n == self.rows().len(),
                all@ == self.rows().take(i as int),
            decreases n - i,
        {
            all.push(self.table.row_at(i).clone());
            proof {
                assert(self.rows().take(i + 1) =~= self.rows().take(i as int).push(
                    self.rows()[i as int],
                ));
            }
            i += 1;
        }
        proof {
            assert(self.rows().take(n as int) =~= self.rows());
        }
        sort_for_listing(all)
    }
}

/// Round trip: a row of the store that carries a just-created identity is
/// the created entity itself, and its fields are exactly the creation
/// fields.
pub proof fn lemma_gallery_create_get_round_trip(
    pre: GalleryStore,
    post: GalleryStore,
    req: CreateGalleryItemRequest,
    now: i64,
    e: GalleryItem,
)
    requires
        pre.wf(),
        post.wf(),
        e == gallery_from_create(req, pre.next() as i32, now),
        post.rows() == pre.rows().push(e),
    ensures
        has_key(post.rows(), e.id),
        forall|e2: GalleryItem| post.rows().contains(e2) && e2.id == e.id ==> e2 == e,
        e.title == req.title,
        e.description == req.description,
        e.display_order == req.display_order,
        e.gallery_category == req.gallery_category,
{
    assert(post.rows()[post.rows().len() - 1] == e);
    assert(has_key(post.rows(), e.id));
    assert forall|e2: GalleryItem| post.rows().contains(e2) && e2.id == e.id implies e2 == e by {
        lemma_unique_row(post.rows(), e2, e);
    }
}

} // verus!
