//! Which requests are trusted, and what they may do.
pub mod error;
pub mod laws;
pub mod permission;
pub mod signature;
pub mod store;

pub use error::{AuthError, AuthErrorResponse, AuthRejection};
pub use permission::{
    ArtifactsRead, ArtifactsWrite, Authorized, JobsRead, JobsRun, LogsRead, RequiredPermission,
};
pub use store::{AuthContext, AuthStore, SignedHeaders};
