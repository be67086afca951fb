//! Verified core of the Program Station blog backend: text encoding, tokens,
//! verification codes, SQL statement construction, result merging and the
//! decisions that every endpoint takes on the data it reads.

pub mod text;
pub mod config;
pub mod paths;
pub mod token;
pub mod email;
pub mod model;
pub mod merge;
pub mod queries;
pub mod reply;
pub mod tx;
pub mod auth;
pub mod plan;
pub mod posts;
pub mod users;
