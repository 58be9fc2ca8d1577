//! The image resource: entity and metadata shapes, the verified store
//! with upload validation (content type, nonempty payload, size), the
//! two-shape retrieval (full row with payload, metadata without), and
//! category filtering with pagination whose `total` is the true count of
//! the filtered set.

use vstd::prelude::*;
use vstd::relations::sorted_by;
use vstd::string::StringExecFns;

use crate::errors::AppError;
use crate::models::{clone_opt_string, ListResponse};
use crate::order::{leq_fn, lemma_filter_empty, lemma_filter_push, sort_for_listing, ListOrdered};
use crate::table::{has_key, key_index, unique_keys, Keyed, Table};
use crate::text::str_eq;
use crate::utils::is_allowed_image_type;
use crate::utils::is_valid_image_type;

verus! {

/// A persisted image row, binary payload included.
#[derive(Debug)]
pub struct Image {
    pub id: i32,
    pub image_name: String,
    pub image_data: Vec<u8>,
    pub content_type: String,
    pub file_size: i32,
    pub category: Option<String>,
    pub description: Option<String>,
    pub uploaded_at: i64,
    pub updated_at: i64,
}

/// An image row without its binary payload, for bulk listing.
#[derive(Debug)]
pub struct ImageMetadata {
    pub id: i32,
    pub image_name: String,
    pub content_type: String,
    pub file_size: i32,
    pub category: Option<String>,
    pub description: Option<String>,
    pub uploaded_at: i64,
    pub updated_at: i64,
}

/// The summary returned after a successful upload.
#[derive(Debug)]
pub struct ImageUploadResponse {
    pub id: i32,
    pub image_name: String,
    pub file_size: i32,
    pub content_type: String,
    pub category: Option<String>,
    pub uploaded_at: i64,
}

/// An image identity together with its public URL.
#[derive(Debug)]
pub struct ImageURL {
    pub id: i32,
    pub url: String,
}

/// Optional metadata accompanying an upload.
#[derive(Debug)]
pub struct CreateImageRequest {
    pub category: Option<String>,
    pub description: Option<String>,
}

/// A partial metadata update: absent fields keep their stored values.
#[derive(Debug)]
pub struct UpdateImageRequest {
    pub category: Option<String>,
    pub description: Option<String>,
}

/// The query parameters of an image listing.
#[derive(Debug)]
pub struct ListImagesQuery {
    pub category: Option<String>,
    pub page: Option<i32>,
    pub page_size: Option<i32>,
}

/// Row equality with the payload compared by contents.
pub open spec fn image_eq(a: Image, b: Image) -> bool {
    &&& a.id == b.id
    &&& a.image_name == b.image_name
    &&& a.image_data@ == b.image_data@
    &&& a.content_type == b.content_type
    &&& a.file_size == b.file_size
    &&& a.category == b.category
    &&& a.description == b.description
    &&& a.uploaded_at == b.uploaded_at
    &&& a.updated_at == b.updated_at
}

/// Clones a byte vector, keeping its contents.
pub fn clone_bytes(v: &Vec<u8>) -> (r: Vec<u8>)
    ensures
        r@ == v@,
{
    let r = v.clone();
    proof {
        assert(r@ =~= v@);
    }
    r
}

impl Clone for Image {
    fn clone(&self) -> (res: Self)
        ensures
            image_eq(res, *self),
    {
        Image {
            id: self.id,
            image_name: self.image_name.clone(),
            image_data: clone_bytes(&self.image_data),
            content_type: self.content_type.clone(),
            file_size: self.file_size,
            category: clone_opt_string(&self.category),
            description: clone_opt_string(&self.description),
            uploaded_at: self.uploaded_at,
            updated_at: self.updated_at,
        }
    }
}

impl Clone for ImageMetadata {
    fn clone(&self) -> (res: Self)
        ensures
            res == *self,
    {
        ImageMetadata {
            id: self.id,
            image_name: self.image_name.clone(),
            content_type: self.content_type.clone(),
            file_size: self.file_size,
            category: clone_opt_string(&self.category),
            description: clone_opt_string(&self.description),
            uploaded_at: self.uploaded_at,
            updated_at: self.updated_at,
        }
    }
}

impl Keyed for Image {
    open spec fn key(self) -> i32 {
        self.id
    }

    fn key_of(&self) -> (k: i32) {
        self.id
    }
}

impl ListOrdered for ImageMetadata {
    /// Image listings order by upload time, newest first.
    open spec fn leq(self, other: Self) -> bool {
        other.uploaded_at <= self.uploaded_at
    }

    proof fn lemma_total(a: Self, b: Self) {
    }

    proof fn lemma_trans(a: Self, b: Self, c: Self) {
    }

    fn le(&self, other: &Self) -> (r: bool) {
        other.uploaded_at <= self.uploaded_at
    }
}

/// The row a validated upload persists.
pub open spec fn image_from_upload(
    id: i32,
    image_name: String,
    content_type: String,
    data: Vec<u8>,
    category: Option<String>,
    description: Option<String>,
    now: i64,
) -> Image {
    Image {
        id,
        image_name,
        image_data: data,
        content_type,
        file_size: data@.len() as i32,
        category,
        description,
        uploaded_at: now,
        updated_at: now,
    }
}

/// The metadata shape of a row: the same fields minus the payload.
pub open spec fn metadata_of(e: Image) -> ImageMetadata {
    ImageMetadata {
        id: e.id,
        image_name: e.image_name,
        content_type: e.content_type,
        file_size: e.file_size,
        category: e.category,
        description: e.description,
        uploaded_at: e.uploaded_at,
        updated_at: e.updated_at,
    }
}

/// The metadata shape, as a mapping over rows.
pub open spec fn metadata_fn() -> spec_fn(Image) -> ImageMetadata {
    |e: Image| metadata_of(e)
}

/// Projects a row to its metadata shape.
pub fn image_to_metadata(e: &Image) -> (m: ImageMetadata)
    ensures
        m == metadata_of(*e),
{
    ImageMetadata {
        id: e.id,
        image_name: e.image_name.clone(),
        content_type: e.content_type.clone(),
        file_size: e.file_size,
        category: clone_opt_string(&e.category),
        description: clone_opt_string(&e.description),
        uploaded_at: e.uploaded_at,
        updated_at: e.updated_at,
    }
}

/// The coalescing metadata update: a supplied field replaces the stored
/// one, an absent field keeps it, and the modification timestamp becomes
/// `now`. The payload never changes.
pub open spec fn apply_image_update(e: Image, u: UpdateImageRequest, now: i64) -> Image {
    Image {
        id: e.id,
        image_name: e.image_name,
        image_data: e.image_data,
        content_type: e.content_type,
        file_size: e.file_size,
        category: match u.category {
            Some(c) => Some(c),
            None => e.category,
        },
        description: match u.description {
            Some(d) => Some(d),
            None => e.description,
        },
        uploaded_at: e.uploaded_at,
        updated_at: now,
    }
}

/// The update that supplies no field at all.
pub open spec fn empty_image_update() -> UpdateImageRequest {
    UpdateImageRequest { category: None, description: None }
}

/// An empty patch changes only the modification timestamp.
pub proof fn lemma_image_empty_update(e: Image, now: i64)
    ensures
        apply_image_update(e, empty_image_update(), now) == (Image { updated_at: now, ..e }),
{
}

/// The category filter of a listing: no requested category admits every
/// row; a requested category admits exactly the rows carrying it.
pub open spec fn category_filter(cat: Option<Seq<char>>) -> spec_fn(Image) -> bool {
    |e: Image|
        match cat {
            None => true,
            Some(cv) => e.category matches Some(s) && s@ == cv,
        }
}

/// The view of an optional string slice.
pub open spec fn opt_str_view(c: Option<&str>) -> Option<Seq<char>> {
    match c {
        Some(s) => Some(s@),
        None => None,
    }
}

/// The image repository: upload, two-shape retrieval, metadata update,
/// delete, and filtered listing.
pub struct ImageStore {
    table: Table<Image>,
}

impl ImageStore {
    /// The persisted rows, in insertion order.
    pub closed spec fn rows(self) -> Seq<Image> {
        self.table.rows()
    }

    /// The identity the next upload will receive.
    pub closed spec fn next(self) -> int {
        self.table.next()
    }

    /// Identities are in `[1, next)` and pairwise distinct.
    pub open spec fn wf(self) -> bool {
        &&& 1 <= self.next() <= i32::MAX
        &&& forall|i: int|
            0 <= i < self.rows().len() ==> 1 <= #[trigger] self.rows()[i].id < self.next()
        &&& unique_keys(self.rows())
    }

    /// An empty store.
    pub fn new() -> (s: Self)
        ensures
            s.wf(),
            s.rows() == Seq::<Image>::empty(),
            s.next() == 1,
    {
        ImageStore { table: Table::new() }
    }

    /// Persists a validated upload as one new row. An empty payload is
    /// rejected as `BadRequest`, a content type outside the allow-list as
    /// `InvalidFileType`, and a payload too large for the stored size
    /// field as `FileTooLarge`; no row is persisted on any rejection.
    pub fn create(
        &mut self,
        image_name: String,
        content_type: String,
        data: Vec<u8>,
        category: Option<String>,
        description: Option<String>,
        now: i64,
    ) -> (r: Result<ImageMetadata, AppError>)
        requires
            old(self).wf(),
        ensures
            final(self).wf(),
            data@.len() == 0 ==> (r matches Err(e)
                && e matches AppError::BadRequest(m)
                && m@ == "No file uploaded"@
                && *final(self) == *old(self)),
            data@.len() > 0 && !is_allowed_image_type(content_type@) ==> (r matches Err(e)
                && e is InvalidFileType
                && *final(self) == *old(self)),
            data@.len() > 0 && is_allowed_image_type(content_type@) && data@.len() > i32::MAX
                ==> (r matches Err(e) && e is FileTooLarge && *final(self) == *old(self)),
            data@.len() > 0 && is_allowed_image_type(content_type@) && data@.len() <= i32::MAX
                && old(self).next() < i32::MAX ==> (r matches Ok(meta) && {
                let row = image_from_upload(
                    old(self).next() as i32,
                    image_name,
                    content_type,
                    data,
                    category,
                    description,
                    now,
                );
                &&& meta == metadata_of(row)
                &&& meta.file_size == data@.len()
                &&& !has_key(old(self).rows(), row.id)
                &&& has_key(final(self).rows(), row.id)
                &&& final(self).rows() == old(self).rows().push(row)
                &&& final(self).next() == old(self).next() + 1
            }),
            data@.len() > 0 && is_allowed_image_type(content_type@) && data@.len() <= i32::MAX
                && old(self).next() == i32::MAX ==> (r matches Err(e)
                && e matches AppError::DatabaseError(m)
                && m@ == "identity space exhausted"@
                && *final(self) == *old(self)),
    {
        if data.len() == 0 {
            return Err(AppError::BadRequest(String::from_str("No file uploaded")));
        }
        if !is_valid_image_type(content_type.as_str()) {
            return Err(AppError::InvalidFileType);
        }
        if data.len() > (i32::MAX as usize) {
            return Err(AppError::FileTooLarge);
        }
        match self.table.fresh_key() {
            Some(id) => {
                let file_size: i32 = data.len() as i32;
                let row = Image {
                    id,
                    image_name,
                    image_data: data,
                    content_type,
                    file_size,
                    category,
                    description,
                    uploaded_at: now,
                    updated_at: now,
                };
                let meta = image_to_metadata(&row);
                let ghost rid = row.id;
                self.table.insert(row);
                proof {
                    assert(self.rows()[self.rows().len() - 1].key() == rid);
                }
                Ok(meta)
            },
            None => Err(AppError::DatabaseError(String::from_str("identity space exhausted"))),
        }
    }

    /// Fetches the full row, payload included, for raw content serving;
    /// yields `NotFound` exactly when no row has the identity.
    pub fn get(&self, id: i32) -> (r: Result<Image, AppError>)
        requires
            self.wf(),
        ensures
            has_key(self.rows(), id) ==> (r matches Ok(e) && image_eq(
                e,
                self.rows()[key_index(self.rows(), id)],
            ) && e.id == id),
            !has_key(self.rows(), id) ==> (r matches Err(err)
                && err matches AppError::NotFound(m)
                && m@ == "Image not found"@),
    {
        match self.table.find_index(id) {
            Some(i) => {
                let e = self.table.row_at(i).clone();
                Ok(e)
            },
            None => Err(AppError::NotFound(String::from_str("Image not found"))),
        }
    }

    /// Applies a coalescing update to the metadata of the image with the
    /// given identity; yields `NotFound` exactly when no row has it.
    pub fn update(&mut self, id: i32, req: UpdateImageRequest, now: i64) -> (r: Result<
        ImageMetadata,
        AppError,
    >)
        requires
            old(self).wf(),
        ensures
            final(self).wf(),
            final(self).next() == old(self).next(),
            has_key(old(self).rows(), id) ==> (r matches Ok(meta) && {
                let row = apply_image_update(
                    old(self).rows()[key_index(old(self).rows(), id)],
                    req,
                    now,
                );
                &&& meta == metadata_of(row)
                &&& final(self).rows().len() == old(self).rows().len()
                &&& image_eq(final(self).rows()[key_index(old(self).rows(), id)], row)
                &&& forall|j: int|
                    0 <= j < old(self).rows().len() && j != key_index(old(self).rows(), id)
                        ==> final(self).rows()[j] == old(self).rows()[j]
            }),
            !has_key(old(self).rows(), id) ==> (r matches Err(err)
                && err matches AppError::NotFound(m)
                && m@ == "Image not found"@
                && *final(self) == *old(self)),
    {
        match self.table.find_index(id) {
            Some(i) => {
                let cur = self.table.row_at(i);
                let row = Image {
                    id: cur.id,
                    image_name: cur.image_name.clone(),
                    image_data: clone_bytes(&cur.image_data),
                    content_type: cur.content_type.clone(),
                    file_size: cur.file_size,
                    category: match req.category {
                        Some(c) => Some(c),
                        None => clone_opt_string(&cur.category),
                    },
                    description: match req.description {
                        Some(d) => Some(d),
                        None => clone_opt_string(&cur.description),
                    },
                    uploaded_at: cur.uploaded_at,
                    updated_at: now,
                };
                let meta = image_to_metadata(&row);
                self.table.replace_at(i, row);
                Ok(meta)
            },
            None => Err(AppError::NotFound(String::from_str("Image not found"))),
        }
    }

    /// Removes the image with the given identity; yields `NotFound`
    /// exactly when no row has it.
    pub fn delete(&mut self, id: i32) -> (r: Result<(), AppError>)
        requires
            old(self).wf(),
        ensures
            final(self).wf(),
            final(self).next() == old(self).next(),
            has_key(old(self).rows(), id) ==> (r is Ok && final(self).rows() == old(
                self,
            ).rows().remove(key_index(old(self).rows(), id))),
            !has_key(old(self).rows(), id) ==> (r matches Err(err)
                && err matches AppError::NotFound(m)
                && m@ == "Image not found"@
                && *final(self) == *old(self)),
    {
        match self.table.find_index(id) {
            Some(i) => {
                self.table.remove_at(i);
                Ok(())
            },
            None => Err(AppError::NotFound(String::from_str("Image not found"))),
        }
    }

    /// Lists the metadata of exactly the rows matching the requested
    /// category (all rows when none is requested), newest upload first.
    pub fn list_metadata(&self, category: Option<&str>) -> (r: Vec<ImageMetadata>)
        requires
            self.wf(),
        ensures
            sorted_by(r@, leq_fn::<ImageMetadata>()),
            r@.to_multiset() == self.rows().filter(
                category_filter(opt_str_view(category)),
            ).map_values(metadata_fn()).to_multiset(),
    {
        let ghost pred = category_filter(opt_str_view(category));
        let mut picked: Vec<ImageMetadata> = Vec::new();
        let n = self.table.len();
        let mut i: usize = 0;
        proof {
            assert(self.rows().take(0) =~= Seq::<Image>::empty());
            lemma_filter_empty(pred);
            assert(picked@ =~= self.rows().take(0).filter(pred).map_values(metadata_fn()));
        }
        while i < n
            invariant
                self.wf(),
                i <= n,
                n == self.rows().len(),
                pred == category_filter(opt_str_view(category)),
                picked@ == self.rows().take(i as int).filter(pred).map_values(metadata_fn()),
            decreases n - i,
        {
            let e = self.table.row_at(i);
            let keep = match category {
                None => true,
                Some(c) => match &e.category {
                    Some(s) => str_eq(s.as_str(), c),
                    None => false,
                },
            };
            if keep {
                picked.push(image_to_metadata(e));
            }
            proof {
                let rows = self.rows();
                assert(rows.take(i + 1) =~= rows.take(i as int).push(rows[i as int]));
                lemma_filter_push(rows.take(i as int), rows[i as int], pred);
                if pred(rows[i as int]) {
                    assert(rows.take(i + 1).filter(pred).map_values(metadata_fn()) =~= rows.take(
                        i as int,
                    ).filter(pred).map_values(metadata_fn()).push(metadata_of(rows[i as int])));
                } else {
                    assert(rows.take(i + 1).filter(pred).map_values(metadata_fn()) =~= rows.take(
                        i as int,
                    ).filter(pred).map_values(metadata_fn()));
                }
            }
            i += 1;
        }
        proof {
            assert(self.rows().take(n as int) =~= self.rows());
        }
        sort_for_listing(picked)
    }
}

/// The page number actually served: the requested one, at least 1.
pub open spec fn norm_page(page: Option<i32>) -> int {
    let p = match page {
        Some(p) => p as int,
        None => 1,
    };
    if p < 1 {
        1
    } else {
        p
    }
}

/// The page size actually served: the requested one, clamped to [1, 100];
/// 20 when none is requested.
pub open spec fn norm_page_size(page_size: Option<i32>) -> int {
    let s = match page_size {
        Some(s) => s as int,
        None => 20,
    };
    if s < 1 {
        1
    } else if s > 100 {
        100
    } else {
        s
    }
}

/// Where the served page starts in the full listing.
pub open spec fn page_start(page: Option<i32>, page_size: Option<i32>, total: int) -> int {
    let off = (norm_page(page) - 1) * norm_page_size(page_size);
    if off > total {
        total
    } else {
        off
    }
}

/// Where the served page ends in the full listing.
pub open spec fn page_end(page: Option<i32>, page_size: Option<i32>, total: int) -> int {
    let e = page_start(page, page_size, total) + norm_page_size(page_size);
    if e > total {
        total
    } else {
        e
    }
}

/// Cuts one page out of a full listing. `total` reports the length of the
/// whole listing, not of the returned page.
pub fn page_slice(v: &Vec<ImageMetadata>, page: Option<i32>, page_size: Option<i32>) -> (r:
    ListResponse<ImageMetadata>)
    requires
        v@.len() <= i64::MAX,
    ensures
        r.page == norm_page(page),
        r.page_size == norm_page_size(page_size),
        r.total == v@.len(),
        r.data@ == v@.subrange(
            page_start(page, page_size, v@.len() as int),
            page_end(page, page_size, v@.len() as int),
        ),
{
    let p: i32 = match page {
        Some(p) => if p < 1 {
            1
        } else {
            p
        },
        None => 1,
    };
    let ps: i32 = match page_size {
        Some(s) => if s < 1 {
            1
        } else if s > 100 {
            100
        } else {
            s
        },
        None => 20,
    };
    let total = v.len();
    proof {
        assert(0 <= (p as i64 - 1) * (ps as i64) <= (i32::MAX as i64) * 100) by (nonlinear_arith)
            requires
                1 <= p as int <= i32::MAX,
                1 <= ps as int <= 100,
        ;
    }
    let off64: i64 = (p as i64 - 1) * (ps as i64);
    let start: usize = if off64 >= total as i64 {
        total
    } else {
        off64 as usize
    };
    let end: usize = if ps as usize > total - start {
        total
    } else {
        start + ps as usize
    };
    let mut data: Vec<ImageMetadata> = Vec::new();
    let mut k: usize = start;
    proof {
        assert(data@ =~= v@.subrange(start as int, start as int));
    }
    while k < end
        invariant
            start <= k <= end <= v@.len(),
            data@ == v@.subrange(start as int, k as int),
        decreases end - k,
    {
        data.push(v[k].clone());
        proof {
            assert(v@.subrange(start as int, k + 1) =~= v@.subrange(start as int, k as int).push(
                v@[k as int],
            ));
        }
        k += 1;
    }
    ListResponse { data, total: total as i64, page: p, page_size: ps }
}

/// Round trip: after an upload, the row carrying the fresh identity is
/// exactly the uploaded row, so a fetch by that identity yields it.
pub proof fn lemma_image_create_get_round_trip(
    pre: ImageStore,
    post: ImageStore,
    row: Image,
)
    requires
        pre.wf(),
        post.wf(),
        !has_key(pre.rows(), row.id),
        post.rows() == pre.rows().push(row),
    ensures
        has_key(post.rows(), row.id),
        post.rows()[key_index(post.rows(), row.id)] == row,
{
    let n = post.rows().len() - 1;
    assert(post.rows()[n] == row);
    assert(has_key(post.rows(), row.id));
    let k = key_index(post.rows(), row.id);
    if k != n {
        assert(post.rows()[k].key() != post.rows()[n].key());
    }
}

} // verus!
