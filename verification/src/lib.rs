//! A verified facade over an embedded on-disk key-value store: records
//! are kept as serialized payloads under string identifiers, and every
//! operation's effect on the store's contents is stated and proved.

pub mod errors;
pub mod ids;
pub mod laws;
pub mod store;

pub use errors::DBError;
pub use errors::DBErrorKind;
pub use errors::StoreFault;
pub use ids::gen_id;
pub use ids::Id;
pub use store::classify_read;
pub use store::classify_removal;
pub use store::DBManager;
