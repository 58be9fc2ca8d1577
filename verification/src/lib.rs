//! Verified core of a club-website backend: CRUD stores for events, gallery
//! items, team members and images, with coalescing partial updates, ordered
//! listings, image-upload validation and response projection.

pub mod config;
pub mod errors;
pub mod events;
pub mod gallery;
pub mod images;
pub mod models;
pub mod order;
pub mod table;
pub mod team;
pub mod text;
pub mod upload;
pub mod utils;
