//! The remote catalog: what is asked of it and how its answers are read.

pub mod github;
pub mod provider;

pub use github::GitHubFile;
pub use github::GitHubProvider;
pub use github::Reply;
pub use provider::FetchBatch;
