//! Role-based access control for a single-owner administrative domain.
//!
//! One admin principal bootstraps the domain and may then grant or revoke
//! named roles on other principals. Every privileged operation checks role
//! membership, then authentication, before it touches the role relation.
pub mod guard;
pub mod laws;
pub mod model;
pub mod registry;
pub mod types;
pub mod vault;

pub use model::AccessState;
pub use registry::RoleRegistry;
pub use types::{Principal, Role, VaultError};
pub use vault::Vault;
