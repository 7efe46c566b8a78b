pub mod actor;
pub mod author;
pub mod decimal;
pub mod files;
pub mod graphql;
pub mod issues;
pub mod pull_requests;
pub mod records;
pub mod source;
pub mod timeline;
