//! A file-metadata lookup service: it turns the result of a filesystem
//! metadata query into a typed response record, resolving the owner's and
//! the group's numeric identifiers to names on the way.
pub mod stat;
