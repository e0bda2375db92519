//! Shared data contract for the note-graph services: content nodes with
//! parent, sibling and root links, and a structured error taxonomy whose
//! derived properties drive retry and circuit-breaking decisions.
//!
//! Instants are microseconds since the Unix epoch (UTC); floating-point
//! values are held as their IEEE-754 bit patterns.

mod clock;
pub mod codec;
pub mod compatibility;
pub mod date;
pub mod duration;
pub mod embedding;
pub mod error;
pub mod features;
pub mod id;
pub mod image;
pub mod image_content;
pub mod json;
pub mod node;
pub mod text;
pub mod version;

pub use date::{CalendarDate, DateNodeMetadata};
pub use duration::Duration;
pub use embedding::{ContextStrategy, EmbeddingGenerationMetrics, MultiLevelEmbeddings, NodeContext};
pub use error::{
    DatabaseError, ErrorSeverity, NetworkError, NodeSpaceError, NodeSpaceResult, ProcessingError,
    ServiceError, ValidationError,
};
pub use id::NodeId;
pub use image::{CameraInfo, ImageMetadata, ImageNode};
pub use json::JsonValue;
pub use node::{Node, NodeMetadata, NodeType, RelationshipRef};
pub use version::CORE_TYPES_VERSION;
pub mod binary32;
