//! Anonymous image hosting: uploads are normalised to bounded JPEGs, stored
//! under random identifiers, and removed later through a delete capability.
pub mod policy;
pub mod auth;
pub mod error;
pub mod ids;
pub mod layout;
pub mod normalize;
pub mod workflow;
pub mod model;
