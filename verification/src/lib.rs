mod clock;
mod error;
mod link;
mod store;
mod url_record;

pub use clock::DefaultInstant;
pub use error::LinkError;
pub use link::Link;
pub use store::InMemoryLinkStore;
pub use store::LinkStore;
pub use store::create_all;
pub use store::lemma_create_overwrites;
pub use store::lemma_create_then_get;
pub use store::lemma_delete_then_get;
pub use store::lemma_distinct_creates_all_retrievable;
pub use url_record::ParsedUrl;
pub use url_record::Url;
pub use url_record::UrlView;
pub use url_record::url_accepts;
pub use url_record::url_host;
pub use url_record::url_serialization;
