//! The decisions of a storage backend that keeps files in a Bunny storage zone
//! and hands them out through the zone's CDN pull zone.
//!
//! Nothing here touches the network. Each operation says which HTTP request
//! has to be sent, and what follows from the reply; a caller sends the request
//! and hands the reply back.

pub mod backend;
pub mod config;
pub mod download;
pub mod error;
pub mod key_order;
pub mod remote_file;
pub mod wire;
pub mod zone;

pub use backend::BunnyBackend;
pub use config::BunnyStorageConfig;
pub use config::ConfigView;
pub use download::Download;
pub use download::DownloadStep;
pub use download::DownloadStepView;
pub use download::DownloadView;
pub use error::StorageError;
pub use error::StorageErrorView;
pub use key_order::KeyOrder;
pub use remote_file::BunnyRemoteFile;
pub use remote_file::RemoteFile;
pub use remote_file::RemoteFileView;
pub use wire::Header;
pub use wire::HeaderView;
pub use wire::Method;
pub use wire::Reply;
pub use wire::ReplyView;
pub use wire::Request;
pub use wire::RequestView;
