//! Attachments of a media file as `mkvmerge --identify` reports them.
use vstd::prelude::*;
use crate::error::MuxError;
use crate::strs::{find_sub_from, split_once_sub_chars, split_once_sub};
use crate::text::chars_of;

verus! {

/// A kind of attachment.
#[derive(Clone, Copy, Debug, PartialEq, Eq, Structural)]
pub enum AttachType {
    Font,
    Other,
}

/// `line` holds `key`.
pub open spec fn holds(line: Seq<char>, key: Seq<char>) -> bool {
    split_once_sub(line, key) is Some
}

/// The kind of attachment an identify line reports: a font when it names a
/// font type, any other attachment otherwise.
pub open spec fn spec_attach_type_of(line: Seq<char>) -> Option<AttachType> {
    if holds(line, "font"@) {
        Some(AttachType::Font)
    } else if holds(line, "Attachment"@) {
        Some(AttachType::Other)
    } else {
        None
    }
}

impl AttachType {
    /// The text by which `mkvmerge --identify` lines of this kind are known.
    pub fn as_str_mkvtoolnix(self) -> (r: &'static str)
        ensures
            self == AttachType::Font ==> r@ == "font"@,
            self == AttachType::Other ==> r@ == "Attachment"@,
    {
        match self {
            AttachType::Font => "font",
            AttachType::Other => "Attachment",
        }
    }
}

/// What is known of one attachment of a media file.
#[derive(Debug)]
pub struct AICache {
    pub id_u32: u32,
    pub attach_type: AttachType,
    pub mkvmerge_id_line: String,
}

/// `true` if `line` holds the text of `at`.
fn line_holds(line: &str, at: AttachType) -> (r: bool)
    ensures
        at == AttachType::Font ==> r == holds(line@, "font"@),
        at == AttachType::Other ==> r == holds(line@, "Attachment"@),
{
    let l = chars_of(line);
    let k = chars_of(at.as_str_mkvtoolnix());
    split_once_sub_chars(l.as_slice(), k.as_slice()).is_some()
}

impl AICache {
    /// The cache of an attachment with its identify line.
    ///
    /// # Errors
    ///
    /// When the line names no kind of attachment.
    pub fn try_init(id_u32: u32, mkvmerge_id_line: String) -> (r: Result<AICache, MuxError>)
        ensures
            spec_attach_type_of(mkvmerge_id_line@) matches Some(t) ==> (r matches Ok(c) && c.id_u32
                == id_u32 && c.attach_type == t && c.mkvmerge_id_line == mkvmerge_id_line),
            spec_attach_type_of(mkvmerge_id_line@) is None ==> (r matches Err(e) && e.has_message(
                "Unrecognized track type"@,
            )),
    {
        match AICache::try_init_attach_type(mkvmerge_id_line.as_str()) {
            Ok(attach_type) => Ok(AICache { id_u32, attach_type, mkvmerge_id_line }),
            Err(e) => Err(e),
        }
    }

    /// The kind of attachment an identify line reports.
    ///
    /// # Errors
    ///
    /// When the line names no kind of attachment.
    pub fn try_init_attach_type(line: &str) -> (r: Result<AttachType, MuxError>)
        ensures
            spec_attach_type_of(line@) matches Some(t) ==> r == Ok::<AttachType, MuxError>(t),
            spec_attach_type_of(line@) is None ==> (r matches Err(e) && e.has_message(
                "Unrecognized track type"@,
            )),
    {
        if line_holds(line, AttachType::Font) {
            return Ok(AttachType::Font);
        }
        if line_holds(line, AttachType::Other) {
            return Ok(AttachType::Other);
        }
        Err(MuxError::from_str_msg("Unrecognized track type"))
    }
}

} // verus!
