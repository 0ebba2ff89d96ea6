//! Epoch-windowed access to multi-channel biosignal recordings and the
//! integer bookkeeping of their multitaper spectral display.

pub mod reader;
pub mod spectral;
pub mod text;
pub mod project;
pub mod collapsible;
pub mod database;
pub mod search;
pub mod colormap;
