//! The cache of what is known of each media file and of each of its
//! tracks and attachments.
use vstd::prelude::*;
use crate::attach::AttachType;
use crate::cache::CacheState;
use crate::lang_table::LangCode;
use crate::track_info::{TrackType, Value};

verus! {

/// The ID of a track: its number in the file, or its ID for the muxer.
#[derive(Clone, Copy, Debug, PartialEq, Eq, Structural)]
pub enum TrackID {
    Num(u64),
    U32(u32),
}

/// Marker of the per-file cache of media information.
pub struct MICache;

/// The cache of one media file.
#[derive(Debug)]
#[non_exhaustive]
pub struct CacheMIOfFile {
    pub path_tail: CacheState<String>,
    pub relative_upmost: CacheState<String>,
    pub words_path_tail: CacheState<Vec<String>>,
    pub words_relative_upmost: CacheState<Vec<String>>,
}

impl CacheMIOfFile {
    /// The cache of a file of which nothing is known yet.
    pub fn default_cache() -> (r: CacheMIOfFile)
        ensures
            r.path_tail is NotCached,
            r.relative_upmost is NotCached,
            r.words_path_tail is NotCached,
            r.words_relative_upmost is NotCached,
    {
        CacheMIOfFile {
            path_tail: CacheState::NotCached,
            relative_upmost: CacheState::NotCached,
            words_path_tail: CacheState::NotCached,
            words_relative_upmost: CacheState::NotCached,
        }
    }
}

/// The cache of one attachment of a media file.
#[derive(Debug)]
pub struct CacheMIOfFileAttach {
    pub stream_i: usize,
    pub codec_id: String,
    pub ty: AttachType,
}

/// The cache of one track of a media file.
#[derive(Debug)]
pub struct CacheMIOfFileTrack {
    pub stream_i: usize,
    pub codec_id: String,
    pub ty: TrackType,
    pub lang: CacheState<Value<LangCode>>,
    pub name: CacheState<Value<String>>,
    pub words_name: CacheState<Vec<String>>,
    pub track_ids: CacheState<[TrackID; 2]>,
    pub it_signs: CacheState<bool>,
}

} // verus!
