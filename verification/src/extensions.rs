//! The file extensions of media files and of fonts.
use vstd::prelude::*;
use crate::text::chars_of;

verus! {

/// The extensions of media files, lowercase.
pub open spec fn media_exts() -> Seq<Seq<char>> {
    seq!["264"@, "265"@, "3gp"@, "aac"@, "ac3"@, "ass"@, "av1"@, "avc"@, "avi"@, "caf"@, "dts"@, "dtshd"@, "eac3"@, "ec3"@, "f4v"@, "flac"@, "flv"@, "h264"@, "h265"@, "hevc"@, "ivf"@, "m2ts"@, "m2v"@, "m4a"@, "m4v"@, "mka"@, "mks"@, "mkv"@, "mlp"@, "mov"@, "mp2"@, "mp3"@, "mp4"@, "mpa"@, "mpeg"@, "mpg"@, "mpv"@, "obu"@, "ogg"@, "ogm"@, "ogv"@, "opus"@, "ra"@, "srt"@, "ssa"@, "sub"@, "sup"@, "thd"@, "truehd"@, "ts"@, "tta"@, "vc1"@, "vtt"@, "wav"@, "weba"@, "webm"@, "wma"@, "wmv"@, "x264"@, "x265"@]
}

/// The extensions of fonts, lowercase.
pub open spec fn font_exts() -> Seq<Seq<char>> {
    seq!["otf"@, "ttf"@]
}

/// The ASCII lowercase form of a byte.
pub open spec fn lower_byte(b: u8) -> u8 {
    if 65 <= b <= 90 {
        (b + 32) as u8
    } else {
        b
    }
}

/// The bytes `b`, read with ASCII letters in any case, spell `t`.
pub open spec fn spells(b: Seq<u8>, t: Seq<char>) -> bool {
    b.len() == t.len() && forall|i: int| 0 <= i < b.len() ==> (lower_byte(#[trigger] b[i]) as char) == t[i]
}

/// The extension is one of `list`, in any ASCII case.
pub open spec fn ext_in(e: Seq<u8>, list: Seq<Seq<char>>) -> bool {
    exists|k: int| 0 <= k < list.len() && spells(e, #[trigger] list[k])
}

/// The ASCII uppercase form of a byte.
pub open spec fn upper_byte(b: u8) -> u8 {
    if 97 <= b <= 122 {
        (b - 32) as u8
    } else {
        b
    }
}

/// The bytes `b`, read with ASCII letters in uppercase, spell `t`.
pub open spec fn spells_upper(b: Seq<u8>, t: Seq<char>) -> bool {
    b.len() == t.len() && forall|i: int| 0 <= i < b.len() ==> (upper_byte(#[trigger] b[i]) as char) == t[i]
}

/// The media extensions as the documentation lists them, in uppercase.
pub open spec fn documented_media_exts() -> Seq<Seq<char>> {
    seq!["264"@, "265"@, "3GP"@, "AAC"@, "AC3"@, "ASS"@, "AV1"@, "AVC"@, "AVI"@, "CAF"@, "DTS"@, "DTSHD"@, "EAC3"@, "EC3"@, "F4V"@, "FLAC"@, "FLV"@, "H264"@, "H265"@, "HEVC"@, "IVF"@, "M2TS"@, "M2V"@, "M4A"@, "M4V"@, "MKA"@, "MKS"@, "MKV"@, "MLP"@, "MOV"@, "MP2"@, "MP3"@, "MP4"@, "MPA"@, "MPEG"@, "MPG"@, "MPV"@, "OBU"@, "OGG"@, "OGM"@, "OGV"@, "OPUS"@, "RA"@, "SRT"@, "SSA"@, "SUB"@, "SUP"@, "THD"@, "TRUEHD"@, "TS"@, "TTA"@, "VC1"@, "VTT"@, "WAV"@, "WEBA"@, "WEBM"@, "WMA"@, "WMV"@, "X264"@, "X265"@]
}

/// The font extensions as the documentation lists them, in uppercase.
pub open spec fn documented_font_exts() -> Seq<Seq<char>> {
    seq!["OTF"@, "TTF"@]
}

/// A byte read as a character is the character of the same code.
proof fn lemma_byte_char(x: u8, c: char)
    ensures
        (x as char == c) <==> (x as u32 == c as u32),
{
    assert(((x as char) as u32) == x as u32);
}

/// A word of lowercase letters and digits is spelled, in any case, exactly
/// by the bytes whose uppercase form spells its uppercase form.
proof fn lemma_upper_spelling(lo: Seq<char>, up: Seq<char>)
    requires
        lo.len() == up.len(),
        forall|i: int|
            0 <= i < lo.len() ==> (('a' <= #[trigger] lo[i] <= 'z' && (up[i] as u32) == (lo[i] as u32)
                - 32) || ('0' <= lo[i] <= '9' && up[i] == lo[i])),
    ensures
        forall|b: Seq<u8>| spells(b, lo) <==> spells_upper(b, up),
{
    assert forall|b: Seq<u8>| spells(b, lo) <==> spells_upper(b, up) by {
        if b.len() == lo.len() {
            assert forall|i: int| 0 <= i < b.len() implies ((lower_byte(#[trigger] b[i]) as char)
                == lo[i] <==> (upper_byte(b[i]) as char) == up[i]) by {
                let x = b[i];
                let lx = lower_byte(x);
                let ux = upper_byte(x);
                lemma_byte_char(lx, lo[i]);
                lemma_byte_char(ux, up[i]);
                assert(('a' <= lo[i] <= 'z' && (up[i] as u32) == (lo[i] as u32) - 32) || ('0' <= lo[i]
                    <= '9' && up[i] == lo[i]));
            }
        }
    }
}

/// Entry `k` of the documented media extensions is entry `k` of the
/// accepted ones, in uppercase.
proof fn lemma_documented_media_entry(k: int)
    requires
        0 <= k < 60,
    ensures
        forall|b: Seq<u8>| spells(b, media_exts()[k]) <==> spells_upper(b, documented_media_exts()[k]),
{
    if k == 0 {
        reveal_strlit("264");
        lemma_upper_spelling(media_exts()[k], documented_media_exts()[k]);
    } else if k == 1 {
        reveal_strlit("265");
        lemma_upper_spelling(media_exts()[k], documented_media_exts()[k]);
    } else if k == 2 {
        reveal_strlit("3gp");
        reveal_strlit("3GP");
        lemma_upper_spelling(media_exts()[k], documented_media_exts()[k]);
    } else if k == 3 {
        reveal_strlit("aac");
        reveal_strlit("AAC");
        lemma_upper_spelling(media_exts()[k], documented_media_exts()[k]);
    } else if k == 4 {
        reveal_strlit("ac3");
        reveal_strlit("AC3");
        lemma_upper_spelling(media_exts()[k], documented_media_exts()[k]);
    } else if k == 5 {
        reveal_strlit("ass");
        reveal_strlit("ASS");
        lemma_upper_spelling(media_exts()[k], documented_media_exts()[k]);
    } else if k == 6 {
        reveal_strlit("av1");
        reveal_strlit("AV1");
        lemma_upper_spelling(media_exts()[k], documented_media_exts()[k]);
    } else if k == 7 {
        reveal_strlit("avc");
        reveal_strlit("AVC");
        lemma_upper_spelling(media_exts()[k], documented_media_exts()[k]);
    } else if k == 8 {
        reveal_strlit("avi");
        reveal_strlit("AVI");
        lemma_upper_spelling(media_exts()[k], documented_media_exts()[k]);
    } else if k == 9 {
        reveal_strlit("caf");
        reveal_strlit("CAF");
        lemma_upper_spelling(media_exts()[k], documented_media_exts()[k]);
    } else if k == 10 {
        reveal_strlit("dts");
        reveal_strlit("DTS");
        lemma_upper_spelling(media_exts()[k], documented_media_exts()[k]);
    } else if k == 11 {
        reveal_strlit("dtshd");
        reveal_strlit("DTSHD");
        lemma_upper_spelling(media_exts()[k], documented_media_exts()[k]);
    } else if k == 12 {
        reveal_strlit("eac3");
        reveal_strlit("EAC3");
        lemma_upper_spelling(media_exts()[k], documented_media_exts()[k]);
    } else if k == 13 {
        reveal_strlit("ec3");
        reveal_strlit("EC3");
        lemma_upper_spelling(media_exts()[k], documented_media_exts()[k]);
    } else if k == 14 {
        reveal_strlit("f4v");
        reveal_strlit("F4V");
        lemma_upper_spelling(media_exts()[k], documented_media_exts()[k]);
    } else if k == 15 {
        reveal_strlit("flac");
        reveal_strlit("FLAC");
        lemma_upper_spelling(media_exts()[k], documented_media_exts()[k]);
    } else if k == 16 {
        reveal_strlit("flv");
        reveal_strlit("FLV");
        lemma_upper_spelling(media_exts()[k], documented_media_exts()[k]);
    } else if k == 17 {
        reveal_strlit("h264");
        reveal_strlit("H264");
        lemma_upper_spelling(media_exts()[k], documented_media_exts()[k]);
    } else if k == 18 {
        reveal_strlit("h265");
        reveal_strlit("H265");
        lemma_upper_spelling(media_exts()[k], documented_media_exts()[k]);
    } else if k == 19 {
        reveal_strlit("hevc");
        reveal_strlit("HEVC");
        lemma_upper_spelling(media_exts()[k], documented_media_exts()[k]);
    } else if k == 20 {
        reveal_strlit("ivf");
        reveal_strlit("IVF");
        lemma_upper_spelling(media_exts()[k], documented_media_exts()[k]);
    } else if k == 21 {
        reveal_strlit("m2ts");
        reveal_strlit("M2TS");
        lemma_upper_spelling(media_exts()[k], documented_media_exts()[k]);
    } else if k == 22 {
        reveal_strlit("m2v");
        reveal_strlit("M2V");
        lemma_upper_spelling(media_exts()[k], documented_media_exts()[k]);
    } else if k == 23 {
        reveal_strlit("m4a");
        reveal_strlit("M4A");
        lemma_upper_spelling(media_exts()[k], documented_media_exts()[k]);
    } else if k == 24 {
        reveal_strlit("m4v");
        reveal_strlit("M4V");
        lemma_upper_spelling(media_exts()[k], documented_media_exts()[k]);
    } else if k == 25 {
        reveal_strlit("mka");
        reveal_strlit("MKA");
        lemma_upper_spelling(media_exts()[k], documented_media_exts()[k]);
    } else if k == 26 {
        reveal_strlit("mks");
        reveal_strlit("MKS");
        lemma_upper_spelling(media_exts()[k], documented_media_exts()[k]);
    } else if k == 27 {
        reveal_strlit("mkv");
        reveal_strlit("MKV");
        lemma_upper_spelling(media_exts()[k], documented_media_exts()[k]);
    } else if k == 28 {
        reveal_strlit("mlp");
        reveal_strlit("MLP");
        lemma_upper_spelling(media_exts()[k], documented_media_exts()[k]);
    } else if k == 29 {
        reveal_strlit("mov");
        reveal_strlit("MOV");
        lemma_upper_spelling(media_exts()[k], documented_media_exts()[k]);
    } else if k == 30 {
        reveal_strlit("mp2");
        reveal_strlit("MP2");
        lemma_upper_spelling(media_exts()[k], documented_media_exts()[k]);
    } else if k == 31 {
        reveal_strlit("mp3");
        reveal_strlit("MP3");
        lemma_upper_spelling(media_exts()[k], documented_media_exts()[k]);
    } else if k == 32 {
        reveal_strlit("mp4");
        reveal_strlit("MP4");
        lemma_upper_spelling(media_exts()[k], documented_media_exts()[k]);
    } else if k == 33 {
        reveal_strlit("mpa");
        reveal_strlit("MPA");
        lemma_upper_spelling(media_exts()[k], documented_media_exts()[k]);
    } else if k == 34 {
        reveal_strlit("mpeg");
        reveal_strlit("MPEG");
        lemma_upper_spelling(media_exts()[k], documented_media_exts()[k]);
    } else if k == 35 {
        reveal_strlit("mpg");
        reveal_strlit("MPG");
        lemma_upper_spelling(media_exts()[k], documented_media_exts()[k]);
    } else if k == 36 {
        reveal_strlit("mpv");
        reveal_strlit("MPV");
        lemma_upper_spelling(media_exts()[k], documented_media_exts()[k]);
    } else if k == 37 {
        reveal_strlit("obu");
        reveal_strlit("OBU");
        lemma_upper_spelling(media_exts()[k], documented_media_exts()[k]);
    } else if k == 38 {
        reveal_strlit("ogg");
        reveal_strlit("OGG");
        lemma_upper_spelling(media_exts()[k], documented_media_exts()[k]);
    } else if k == 39 {
        reveal_strlit("ogm");
        reveal_strlit("OGM");
        lemma_upper_spelling(media_exts()[k], documented_media_exts()[k]);
    } else if k == 40 {
        reveal_strlit("ogv");
        reveal_strlit("OGV");
        lemma_upper_spelling(media_exts()[k], documented_media_exts()[k]);
    } else if k == 41 {
        reveal_strlit("opus");
        reveal_strlit("OPUS");
        lemma_upper_spelling(media_exts()[k], documented_media_exts()[k]);
    } else if k == 42 {
        reveal_strlit("ra");
        reveal_strlit("RA");
        lemma_upper_spelling(media_exts()[k], documented_media_exts()[k]);
    } else if k == 43 {
        reveal_strlit("srt");
        reveal_strlit("SRT");
        lemma_upper_spelling(media_exts()[k], documented_media_exts()[k]);
    } else if k == 44 {
        reveal_strlit("ssa");
        reveal_strlit("SSA");
        lemma_upper_spelling(media_exts()[k], documented_media_exts()[k]);
    } else if k == 45 {
        reveal_strlit("sub");
        reveal_strlit("SUB");
        lemma_upper_spelling(media_exts()[k], documented_media_exts()[k]);
    } else if k == 46 {
        reveal_strlit("sup");
        reveal_strlit("SUP");
        lemma_upper_spelling(media_exts()[k], documented_media_exts()[k]);
    } else if k == 47 {
        reveal_strlit("thd");
        reveal_strlit("THD");
        lemma_upper_spelling(media_exts()[k], documented_media_exts()[k]);
    } else if k == 48 {
        reveal_strlit("truehd");
        reveal_strlit("TRUEHD");
        lemma_upper_spelling(media_exts()[k], documented_media_exts()[k]);
    } else if k == 49 {
        reveal_strlit("ts");
        reveal_strlit("TS");
        lemma_upper_spelling(media_exts()[k], documented_media_exts()[k]);
    } else if k == 50 {
        reveal_strlit("tta");
        reveal_strlit("TTA");
        lemma_upper_spelling(media_exts()[k], documented_media_exts()[k]);
    } else if k == 51 {
        reveal_strlit("vc1");
        reveal_strlit("VC1");
        lemma_upper_spelling(media_exts()[k], documented_media_exts()[k]);
    } else if k == 52 {
        reveal_strlit("vtt");
        reveal_strlit("VTT");
        lemma_upper_spelling(media_exts()[k], documented_media_exts()[k]);
    } else if k == 53 {
        reveal_strlit("wav");
        reveal_strlit("WAV");
        lemma_upper_spelling(media_exts()[k], documented_media_exts()[k]);
    } else if k == 54 {
        reveal_strlit("weba");
        reveal_strlit("WEBA");
        lemma_upper_spelling(media_exts()[k], documented_media_exts()[k]);
    } else if k == 55 {
        reveal_strlit("webm");
        reveal_strlit("WEBM");
        lemma_upper_spelling(media_exts()[k], documented_media_exts()[k]);
    } else if k == 56 {
        reveal_strlit("wma");
        reveal_strlit("WMA");
        lemma_upper_spelling(media_exts()[k], documented_media_exts()[k]);
    } else if k == 57 {
        reveal_strlit("wmv");
        reveal_strlit("WMV");
        lemma_upper_spelling(media_exts()[k], documented_media_exts()[k]);
    } else if k == 58 {
        reveal_strlit("x264");
        reveal_strlit("X264");
        lemma_upper_spelling(media_exts()[k], documented_media_exts()[k]);
    } else if k == 59 {
        reveal_strlit("x265");
        reveal_strlit("X265");
        lemma_upper_spelling(media_exts()[k], documented_media_exts()[k]);
    }
}

/// Entry `k` of the documented font extensions is entry `k` of the
/// accepted ones, in uppercase.
proof fn lemma_documented_font_entry(k: int)
    requires
        0 <= k < 2,
    ensures
        forall|b: Seq<u8>| spells(b, font_exts()[k]) <==> spells_upper(b, documented_font_exts()[k]),
{
    if k == 0 {
        reveal_strlit("otf");
        reveal_strlit("OTF");
        lemma_upper_spelling(font_exts()[k], documented_font_exts()[k]);
    } else if k == 1 {
        reveal_strlit("ttf");
        reveal_strlit("TTF");
        lemma_upper_spelling(font_exts()[k], documented_font_exts()[k]);
    }
}

/// Law: an extension is accepted as a media extension exactly when,
/// in any ASCII case, it is one of the documented media extensions.
pub proof fn lemma_media_exts_documented(b: Seq<u8>)
    ensures
        ext_in(b, media_exts()) <==> exists|k: int|
            0 <= k < documented_media_exts().len() && spells_upper(b, #[trigger] documented_media_exts()[k]),
{
    assert(media_exts().len() == documented_media_exts().len());
    if ext_in(b, media_exts()) {
        let k = choose|k: int| 0 <= k < media_exts().len() && spells(b, #[trigger] media_exts()[k]);
        lemma_documented_media_entry(k);
        assert(spells_upper(b, documented_media_exts()[k]));
    }
    if exists|k: int| 0 <= k < documented_media_exts().len() && spells_upper(b, #[trigger] documented_media_exts()[k]) {
        let k = choose|k: int| 0 <= k < documented_media_exts().len() && spells_upper(b, #[trigger] documented_media_exts()[k]);
        lemma_documented_media_entry(k);
        assert(spells(b, media_exts()[k]));
    }
}

/// Law: an extension is accepted as a font extension exactly when,
/// in any ASCII case, it is one of the documented font extensions.
pub proof fn lemma_font_exts_documented(b: Seq<u8>)
    ensures
        ext_in(b, font_exts()) <==> exists|k: int|
            0 <= k < documented_font_exts().len() && spells_upper(b, #[trigger] documented_font_exts()[k]),
{
    assert(font_exts().len() == documented_font_exts().len());
    if ext_in(b, font_exts()) {
        let k = choose|k: int| 0 <= k < font_exts().len() && spells(b, #[trigger] font_exts()[k]);
        lemma_documented_font_entry(k);
        assert(spells_upper(b, documented_font_exts()[k]));
    }
    if exists|k: int| 0 <= k < documented_font_exts().len() && spells_upper(b, #[trigger] documented_font_exts()[k]) {
        let k = choose|k: int| 0 <= k < documented_font_exts().len() && spells_upper(b, #[trigger] documented_font_exts()[k]);
        lemma_documented_font_entry(k);
        assert(spells(b, font_exts()[k]));
    }
}

/// The views of string slices.
pub open spec fn str_views(v: Seq<&str>) -> Seq<Seq<char>> {
    v.map_values(|s: &str| s@)
}

/// The bytes spell the text, in any ASCII case.
fn spells_exec(b: &[u8], t: &str) -> (r: bool)
    ensures
        r == spells(b@, t@),
{
    let cs = chars_of(t);
    if b.len() != cs.len() {
        return false;
    }
    let mut i: usize = 0;
    while i < b.len()
        invariant
            cs@ == t@,
            b.len() == cs.len(),
            i <= b.len(),
            forall|k: int| 0 <= k < i ==> (lower_byte(#[trigger] b@[k]) as char) == t@[k],
        decreases b.len() - i,
    {
        let x = b[i];
        let l: u8 = if 65 <= x && x <= 90 {
            x + 32
        } else {
            x
        };
        if l as char != cs[i] {
            return false;
        }
        i = i + 1;
    }
    true
}

/// The extension is one of `list`.
fn ext_in_exec(e: &[u8], list: &Vec<&str>) -> (r: bool)
    ensures
        r == ext_in(e@, str_views(list@)),
{
    let ghost lv = str_views(list@);
    let mut k: usize = 0;
    while k < list.len()
        invariant
            lv == str_views(list@),
            k <= list.len(),
            forall|j: int| 0 <= j < k ==> !spells(e@, #[trigger] lv[j]),
        decreases list.len() - k,
    {
        if spells_exec(e, list[k]) {
            assert(spells(e@, lv[k as int]));
            return true;
        }
        k = k + 1;
    }
    false
}

/// The media extensions, as text.
fn media_list() -> (r: Vec<&'static str>)
    ensures
        str_views(r@) == media_exts(),
{
    let mut v: Vec<&'static str> = Vec::new();
    v.push("264");
    v.push("265");
    v.push("3gp");
    v.push("aac");
    v.push("ac3");
    v.push("ass");
    v.push("av1");
    v.push("avc");
    v.push("avi");
    v.push("caf");
    v.push("dts");
    v.push("dtshd");
    v.push("eac3");
    v.push("ec3");
    v.push("f4v");
    v.push("flac");
    v.push("flv");
    v.push("h264");
    v.push("h265");
    v.push("hevc");
    v.push("ivf");
    v.push("m2ts");
    v.push("m2v");
    v.push("m4a");
    v.push("m4v");
    v.push("mka");
    v.push("mks");
    v.push("mkv");
    v.push("mlp");
    v.push("mov");
    v.push("mp2");
    v.push("mp3");
    v.push("mp4");
    v.push("mpa");
    v.push("mpeg");
    v.push("mpg");
    v.push("mpv");
    v.push("obu");
    v.push("ogg");
    v.push("ogm");
    v.push("ogv");
    v.push("opus");
    v.push("ra");
    v.push("srt");
    v.push("ssa");
    v.push("sub");
    v.push("sup");
    v.push("thd");
    v.push("truehd");
    v.push("ts");
    v.push("tta");
    v.push("vc1");
    v.push("vtt");
    v.push("wav");
    v.push("weba");
    v.push("webm");
    v.push("wma");
    v.push("wmv");
    v.push("x264");
    v.push("x265");
    assert(str_views(v@) =~= media_exts());
    v
}

/// The font extensions, as text.
fn font_list() -> (r: Vec<&'static str>)
    ensures
        str_views(r@) == font_exts(),
{
    let mut v: Vec<&'static str> = Vec::new();
    v.push("otf");
    v.push("ttf");
    assert(str_views(v@) =~= font_exts());
    v
}

/// The extension (its encoded bytes) is that of a media file, in any ASCII
/// case.
pub fn is_media_ext(ext: &[u8]) -> (r: bool)
    ensures
        r == ext_in(ext@, media_exts()),
{
    ext_in_exec(ext, &media_list())
}

/// The extension (its encoded bytes) is that of a font, in any ASCII case.
pub fn is_font_ext(ext: &[u8]) -> (r: bool)
    ensures
        r == ext_in(ext@, font_exts()),
{
    ext_in_exec(ext, &font_list())
}

/// A file name is that of a font: it has an extension (its encoded bytes,
/// as the path gives it) that is a font extension.
pub fn is_font_filename(ext: Option<&[u8]>) -> (r: bool)
    ensures
        r == (ext matches Some(e) && ext_in(e@, font_exts())),
{
    match ext {
        Some(e) => is_font_ext(e),
        None => false,
    }
}

/// The ASCII lowercase form of bytes.
pub open spec fn lower_bytes(b: Seq<u8>) -> Seq<u8> {
    b.map_values(|x: u8| lower_byte(x))
}

/// Law: the case of ASCII letters in an extension does not change whether
/// it is a media or a font extension.
pub proof fn lemma_ext_case_insensitive(e: Seq<u8>)
    ensures
        ext_in(lower_bytes(e), media_exts()) == ext_in(e, media_exts()),
        ext_in(lower_bytes(e), font_exts()) == ext_in(e, font_exts()),
{
    assert forall|t: Seq<char>| spells(lower_bytes(e), t) == spells(e, t) by {
        assert forall|i: int| 0 <= i < e.len() implies lower_byte(#[trigger] lower_bytes(e)[i])
            == lower_byte(e[i]) by {
            assert(lower_bytes(e)[i] == lower_byte(e[i]));
        }
        if spells(e, t) {
            assert forall|i: int| 0 <= i < lower_bytes(e).len() implies (lower_byte(
                #[trigger] lower_bytes(e)[i],
            ) as char) == t[i] by {
                assert(lower_byte(lower_bytes(e)[i]) == lower_byte(e[i]));
            }
        }
        if spells(lower_bytes(e), t) {
            assert forall|i: int| 0 <= i < e.len() implies (lower_byte(#[trigger] e[i]) as char)
                == t[i] by {
                assert(lower_byte(lower_bytes(e)[i]) == lower_byte(e[i]));
            }
        }
    }
    if ext_in(e, media_exts()) {
        let k = choose|k: int| 0 <= k < media_exts().len() && spells(e, #[trigger] media_exts()[k]);
        assert(spells(lower_bytes(e), media_exts()[k]));
    }
    if ext_in(lower_bytes(e), media_exts()) {
        let k = choose|k: int| 0 <= k < media_exts().len() && spells(lower_bytes(e), #[trigger] media_exts()[k]);
        assert(spells(e, media_exts()[k]));
    }
    if ext_in(e, font_exts()) {
        let k = choose|k: int| 0 <= k < font_exts().len() && spells(e, #[trigger] font_exts()[k]);
        assert(spells(lower_bytes(e), font_exts()[k]));
    }
    if ext_in(lower_bytes(e), font_exts()) {
        let k = choose|k: int| 0 <= k < font_exts().len() && spells(lower_bytes(e), #[trigger] font_exts()[k]);
        assert(spells(e, font_exts()[k]));
    }
}

} // verus!
