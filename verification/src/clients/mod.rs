//! What the engine knows of its three collaborators: the code-review
//! service, the notification service and the snapshot store.

pub mod cache;
pub mod github;
pub mod ntfy;
