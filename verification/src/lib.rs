//! On-demand HLS transcoding: the decisions of the service, stated and proved.

pub mod cache;
pub mod encode;
pub mod error;
pub mod identify;
pub mod master;
pub mod metadata;
pub mod model;
pub mod probe;
pub mod quality;
pub mod state;
pub mod text;
pub mod upstream;
