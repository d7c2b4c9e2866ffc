//! Decision logic of a media muxing utility: which files make one output,
//! in which order fonts are attached, which language and name each track
//! gets, how the command line is first read, and the errors, caches and
//! logging around them.
mod os_bytes;
pub mod text;
pub mod strs;

pub mod error;
pub mod logger;
pub mod cache;

pub mod lang_table;
pub mod lang;
pub mod range;
pub mod metadata;
pub mod media_number;

pub mod kinds;
pub mod extensions;
pub mod globs;
pub mod grouping;
pub mod fonts;

pub mod cli_args;
pub mod raw_config;
pub mod json_args;
pub mod mux_target;
pub mod mux_config;

pub mod attach;
pub mod mkvinfo;
pub mod media_cache;
pub mod track_info;
pub mod saved_tracks;

pub use os_bytes::{bytes_starts_with, bytes_tail};
pub use error::{MuxError, MuxErrorKind, MuxErrorMessage, MuxErrorMessageLocalized};
pub use logger::{Level, LevelFilter, LogLevel, MuxLogger};
pub use cache::{CacheState, new_state_and_result};
pub use lang_table::LangCode;
pub use lang::Lang;
pub use range::RangeUsize;
pub use metadata::{LangMetadata, Metadata, NameMetadata};
pub use media_number::MediaNumber;
pub use kinds::{FfmpegStream, FileType, InputFileType, MediaType};
pub use globs::GlobSetPattern;
pub use grouping::{GroupOptions, MediaGroupedByStem, group_media_by_stem};
pub use fonts::filter_and_sort_fonts;
pub use cli_args::{MuxConfigArg, OffFlag};
pub use raw_config::{RawMuxConfig, Tool};
pub use mux_target::MuxConfigTarget;
pub use mux_config::MuxConfig;
pub use attach::{AICache, AttachType};
pub use mkvinfo::Mkvinfo;
pub use media_cache::{CacheMIOfFile, CacheMIOfFileAttach, CacheMIOfFileTrack, MICache, TrackID};
pub use track_info::{TrackType, Value};
pub use saved_tracks::{SavedU32Ids, split_saved_nums, split_saved_u32_ids};
