//! A paste-storage service's core: slugs, admission keys, eviction planning
//! and the replies of both ingress protocols.

pub mod index;
pub mod ingress;
pub mod ratelimit;
pub mod slug;
pub mod storage;
pub mod store;
