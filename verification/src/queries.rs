//! What the store answers, read into the library's values.

pub mod memberships;
