//! k-shrink: the decisions of a clipboard daemon that re-encodes copied
//! images into a smaller format, with their contracts.
//!
//! - `shrink`, `hash`: re-encoding image bytes and identifying them by hash;
//! - `config`: configuration values, defaults and validation;
//! - `daemon`: one round of the daemon over a `ClipboardProvider`;
//! - `capture`, `uri_list`, `percent`, `text`: how a clipboard offer is
//!   searched for an image, including file-manager `text/uri-list` copies.

pub mod capture;
pub mod config;
pub mod daemon;
pub mod errors;
pub mod hash;
pub mod percent;
pub mod shrink;
pub mod text;
pub mod uri_list;

pub use config::{
    load_config_from, settings_from, validate, Config, ConfigError, GeneralConfig, Settings,
};
pub use daemon::{finish_round, prepare_offer, process_once, ClipboardProvider, Offer, ProcessError};
pub use errors::{ClipboardError, ShrinkError};
pub use hash::image_hash;
pub use percent::percent_decode;
pub use shrink::{shrink, to_png, OutputFormat, ShrinkOptions, ShrinkResult};
pub use uri_list::{select_image_from_uri_list, UriListImage};
