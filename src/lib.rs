//! Federation core of a link aggregator: the object store model, the resolver
//! with its fetch budget, the verification checks of inbound activities, the
//! activity handlers and the wire codec of people and comments.

pub mod error;
pub mod relations;
pub mod ids;
pub mod context;
pub mod content;
pub mod store;
pub mod person;
pub mod comment;
pub mod resolver;
pub mod checks;
pub mod following;
pub mod community;
pub mod private_message;
pub mod post;
