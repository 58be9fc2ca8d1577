//! Response envelopes shared by every resource, and small clone helpers
//! for optional fields.

use vstd::prelude::*;
use vstd::string::StringExecFns;

use crate::text::{dec_int, i32_to_dec};

verus! {

/// The public URL under which an image is served, built from its identity
/// alone; no store lookup is involved.
pub open spec fn image_url_view(id: int) -> Seq<char> {
    "/api/images/"@ + dec_int(id)
}

/// Builds the public URL for an image identity.
pub fn image_url_for(id: i32) -> (s: String)
    ensures
        s@ == image_url_view(id as int),
{
    let mut s = String::from_str("/api/images/");
    let d = i32_to_dec(id);
    s.append(d.as_str());
    s
}

/// The envelope for a successful operation.
#[derive(Debug)]
pub struct SuccessResponse<T> {
    pub success: bool,
    pub data: Option<T>,
    pub message: Option<String>,
}

/// The envelope for a paginated listing.
#[derive(Debug)]
pub struct ListResponse<T> {
    pub data: Vec<T>,
    pub total: i64,
    pub page: i32,
    pub page_size: i32,
}

impl<T> SuccessResponse<T> {
    /// Success carrying data and no message.
    pub fn new(data: T) -> (r: Self)
        ensures
            r.success,
            r.data == Some(data),
            r.message is None,
    {
        SuccessResponse { success: true, data: Some(data), message: None }
    }

    /// Success carrying data and a message.
    pub fn with_message(data: T, message: String) -> (r: Self)
        ensures
            r.success,
            r.data == Some(data),
            r.message == Some(message),
    {
        SuccessResponse { success: true, data: Some(data), message: Some(message) }
    }

    /// Success carrying neither data nor message.
    pub fn no_data() -> (r: Self)
        ensures
            r.success,
            r.data is None,
            r.message is None,
    {
        SuccessResponse { success: true, data: None, message: None }
    }
}

/// Clones an optional string, keeping its value.
pub fn clone_opt_string(x: &Option<String>) -> (r: Option<String>)
    ensures
        r == *x,
{
    match x {
        Some(s) => Some(s.clone()),
        None => None,
    }
}

} // verus!
