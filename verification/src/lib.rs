//! Decision logic of a small file-storage service: the data model, multipart
//! form assembly, content-type detection and the put/get/info orchestration.

pub mod buffer;
pub mod error;
pub mod handlers;
pub mod key;
pub mod model;
pub mod sniff;
pub mod store;
pub mod text;
pub mod types;
