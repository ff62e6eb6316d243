//! The certificate authority hierarchy of a Kubernetes cluster and the
//! profile-based issuance of its leaf certificates.

pub mod authority;
pub mod bootstrap;
pub mod catalog;
pub mod error;
pub mod index;
pub mod layout;
pub mod ledger;
pub mod plan;
pub mod selector;
pub mod text;
