//! Verified core of a discussion-board backend: bearer-token verification and
//! request identity.

pub mod claims;
pub mod decimal;
pub mod error;
pub mod identity;
pub mod json;
pub mod listing;
pub mod moderation;
pub mod profile;
pub mod request;
pub mod text;
pub mod token;
