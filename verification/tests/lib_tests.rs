use mux_media::raw_config::FirstPassAction;
use mux_media::json_args::{json_args_from_bytes, json_bytes_of_args};
use mux_media::track_info::{stream_lang, stream_name, text_it_signs};
use mux_media::mux_target::get_trg_track_langs;
use mux_media::media_cache::CacheMIOfFile;
use mux_media::logger::MuxLogger;
use mux_media::extensions::{is_font_ext, is_font_filename, is_media_ext};
use mux_media::GlobSetPattern;
use mux_media::mux_target::append_targets_json_args;
use mux_media::grouping::dir_has_input_media;
use mux_media::cache::CacheState;
use mux_media::cli_args::{MuxConfigArg, OffFlag};
use mux_media::error::{MuxError, MuxErrorKind};
use mux_media::fonts::filter_and_sort_fonts;
use mux_media::grouping::{GroupOptions, group_media_by_stem};
use mux_media::lang::Lang;
use mux_media::lang_table::LangCode;
use mux_media::logger::{Level, LevelFilter, LogLevel, color_prefix};
use mux_media::media_number::MediaNumber;
use mux_media::metadata::{LangMetadata, NameMetadata};
use mux_media::mkvinfo::Mkvinfo;
use mux_media::mux_config::{DEFAULT_DOWN, MuxConfig};
use mux_media::mux_target::{MuxConfigTarget, get_trg_track_names};
use mux_media::range::RangeUsize;
use mux_media::strs::decimal_text;
use mux_media::raw_config::{RawMuxConfig, Tool};
use mux_media::saved_tracks::{split_saved_nums, split_saved_u32_ids};
use mux_media::track_info::{
    TrackType, Value, it_signs, it_signs_many, shortest_stem, str_to_words, stream_it_signs,
    ti_it_signs, ti_lang, ti_name,
};
use mux_media::attach::{AICache, AttachType};
use mux_media::{bytes_starts_with, bytes_tail};

fn strings(v: &[&str]) -> Vec<String> {
    v.iter().map(|s| s.to_string()).collect()
}

fn stems(v: &[Option<&str>]) -> Vec<Option<Vec<u8>>> {
    v.iter().map(|o| o.map(|s| s.as_bytes().to_vec())).collect()
}

// ---- errors ----

#[test]
fn error_new_has_code_one_and_no_message() {
    let e = MuxError::new();
    assert_eq!(e.code, 1);
    assert_eq!(e.to_str(), "");
    assert!(e.use_stderr());
}

#[test]
fn error_new_ok_goes_to_stdout() {
    let e = MuxError::new_ok();
    assert_eq!(e.code, 0);
    assert!(!e.use_stderr());
}

#[test]
fn error_builders_set_fields() {
    let e = MuxError::from_any("boom".to_string())
        .code(3)
        .kind(MuxErrorKind::default_kind())
        .message("bang".to_string());
    assert_eq!(e.code, 3);
    assert_eq!(e.to_str(), "bang");
    assert_eq!(e.to_str_localized(), "bang");
}

#[test]
fn error_localized_text() {
    let e = MuxError::localized("Hello".to_string(), Some("Привет".to_string()));
    assert_eq!(e.to_str(), "Hello");
    assert_eq!(e.to_str_localized(), "Привет");
    let d = e.duplicate();
    assert_eq!(d.to_str_localized(), "Привет");
}

// ---- language codes ----

#[test]
fn lang_code_from_words() {
    assert_eq!(LangCode::get("English eng"), Some(LangCode::Eng));
    assert_eq!(LangCode::get("x und eng"), Some(LangCode::Und));
    assert_eq!(LangCode::get("RU"), Some(LangCode::Rus));
    assert_eq!(LangCode::get("deu"), Some(LangCode::Ger));
    assert_eq!(LangCode::get("abcd"), None);
    assert_eq!(LangCode::get(""), None);
}

#[test]
fn lang_code_from_str_error() {
    assert_eq!(LangCode::from_str("jpn").unwrap(), LangCode::Jpn);
    let e = LangCode::from_str("zz").unwrap_err();
    assert_eq!(e.to_str(), "Not found a valid language code");
}

#[test]
fn lang_code_string_roundtrip() {
    for c in [LangCode::Eng, LangCode::Rus, LangCode::Jpn, LangCode::Und, LangCode::Ger] {
        let s = c.to_code_string();
        assert_eq!(LangCode::get(&s), Some(c));
    }
    assert_eq!(LangCode::Eng.to_code_string(), "eng");
}

#[test]
fn lang_code_default_is_und() {
    assert_eq!(LangCode::default_code(), LangCode::Und);
    assert!(LangCode::Und.is_default());
    assert!(!LangCode::Eng.is_default());
}

#[test]
fn lang_code_from_locale_takes_first_set_var() {
    let vars = vec![None, Some("ru_RU.UTF-8".to_string()), Some("en_US".to_string())];
    assert_eq!(LangCode::from_locale(&vars), LangCode::Rus);
    let none: Vec<Option<String>> = vec![None, None];
    assert_eq!(LangCode::from_locale(&none), LangCode::Und);
    let bad = vec![Some("C".to_string()), Some("en".to_string())];
    assert_eq!(LangCode::from_locale(&bad), LangCode::Und);
}

#[test]
fn lang_code_priority() {
    let w = strings(&["und", "jpn", "eng"]);
    assert_eq!(LangCode::try_priority(&w).unwrap(), LangCode::Jpn);
    let w = strings(&["und", "xyz"]);
    assert_eq!(LangCode::try_priority(&w).unwrap(), LangCode::Und);
    let w = strings(&["foo"]);
    let e = LangCode::try_priority(&w).unwrap_err();
    assert_eq!(e.to_str(), "Not found any language code");
}

#[test]
fn lang_new_and_display() {
    assert!(matches!(Lang::new("eng"), Lang::Code(LangCode::Eng)));
    match Lang::new("Klingon!") {
        Lang::Other(s) => assert_eq!(s, "Klingon!"),
        _ => panic!("expected other"),
    }
    assert_eq!(Lang::new("rus").to_display_string(), "rus");
    assert_eq!(Lang::new("Klingon!").to_display_string(), "Klingon!");
    assert!(Lang::default_lang().is_default());
}

// ---- media numbers ----

#[test]
fn media_number_first_run() {
    let n = MediaNumber::from_bytes(b"ep01 a");
    assert_eq!(n.as_str(), "01");
    assert_eq!(n.to_usize(), 1);
    let n = MediaNumber::from_bytes(b"Death Note - 01");
    assert_eq!(n.as_str(), "01");
    assert_eq!(n.to_usize(), 1);
    let n = MediaNumber::from_bytes(b"Show 01");
    assert_eq!(n.as_str(), "01");
    let n = MediaNumber::from_bytes(b"no digits");
    assert_eq!(n.as_str(), "");
    assert_eq!(n.to_usize(), 0);
}

#[test]
fn media_number_tracks_changed_run() {
    let mut n = MediaNumber::from_bytes(b"s1 ep01 x");
    assert_eq!(n.as_str(), "1");
    n.upd(b"s1 ep02 x");
    assert_eq!(n.as_str(), "02");
    assert_eq!(n.to_usize(), 2);
    n.upd(b"s1 ep03 x");
    assert_eq!(n.as_str(), "03");
    n.upd(b"s1 ep10 x");
    assert_eq!(n.to_usize(), 10);
}

#[test]
fn media_number_new_length_rebuilds() {
    let mut n = MediaNumber::from_bytes(b"a1 b");
    n.upd(b"a12 b");
    assert_eq!(n.as_str(), "12");
}

#[test]
fn media_number_leading_and_trailing_runs() {
    let mut n = MediaNumber::from_bytes(b"01 a");
    assert_eq!(n.as_str(), "01");
    n.upd(b"02 a");
    assert_eq!(n.as_str(), "02");
    n.upd(b"11 a");
    assert_eq!(n.as_str(), "11");
    assert_eq!(n.to_usize(), 11);
    let mut n = MediaNumber::from_bytes(b"Show - 01");
    n.upd(b"Show - 02");
    assert_eq!(n.as_str(), "02");
    n.upd(b"Show - 03");
    assert_eq!(n.as_str(), "03");
}

// ---- bytes ----

#[test]
fn bytes_prefix_and_tail() {
    assert!(bytes_starts_with(b"ab", b"abc"));
    assert!(!bytes_starts_with(b"abd", b"abc"));
    assert_eq!(bytes_tail(b"ab", b"abcd"), Some(b"cd".to_vec()));
    assert_eq!(bytes_tail(b"abc", b"abc"), Some(Vec::new()));
    assert_eq!(bytes_tail(b"x", b"abc"), None);
}

// ---- ranges ----

#[test]
fn range_parsing() {
    let r = RangeUsize::from_str("3-7").unwrap();
    assert_eq!((r.start, r.end), (3, 7));
    assert!(r.contains(3) && r.contains(7) && !r.contains(8));
    let r = RangeUsize::from_str("5").unwrap();
    assert_eq!((r.start, r.end), (5, usize::MAX));
    let e = RangeUsize::from_str("7-3").unwrap_err();
    assert_eq!(e.to_str(), "Invalid range: must be n[-m]");
    assert!(RangeUsize::from_str("a-b").is_err());
}

// ---- metadata ----

#[test]
fn name_metadata_single_value() {
    let m = NameMetadata::from_str("  My Name ").unwrap();
    assert_eq!(m.0.single_val.as_deref(), Some("My Name"));
    assert!(m.0.idxs.is_none());
}

#[test]
fn name_metadata_by_ids() {
    let m = NameMetadata::from_str("0:first, eng:English, 1-2:range, 0:again").unwrap();
    assert!(m.0.single_val.is_none());
    let idxs = m.0.idxs.unwrap();
    assert_eq!(idxs.len(), 1);
    assert_eq!(idxs.get(&0).map(|v| v.as_str()), Some("again"));
    let langs = m.0.langs.unwrap();
    assert_eq!(langs[0].0, LangCode::Eng);
    assert_eq!(langs[0].1, "English");
    let ranges = m.0.ranges.unwrap();
    assert_eq!((ranges[0].0.start, ranges[0].0.end), (1, 2));
}

#[test]
fn metadata_errors() {
    let e = NameMetadata::from_str("0:a,b").unwrap_err();
    assert_eq!(e.to_str(), "Invalid format: Must be [n:]T[,m:T]...");
    let e = NameMetadata::from_str("0:a,zzzz:b").unwrap_err();
    assert_eq!(
        e.to_str(),
        "Invalid stream ID 'zzzz' (must be num, range (n-m) of num or lang code)"
    );
    let m = NameMetadata::from_str("0:a,,").unwrap();
    assert_eq!(m.0.idxs.unwrap().len(), 1);
}

#[test]
fn lang_metadata_values() {
    let m = LangMetadata::from_str("0:rus,1:Klingon").unwrap();
    let idxs = m.0.idxs.unwrap();
    assert!(matches!(idxs.get(&0), Some(Lang::Code(LangCode::Rus))));
    assert!(matches!(idxs.get(&1), Some(Lang::Other(s)) if s == "Klingon"));
}

// ---- caches ----

#[test]
fn cache_state_take_leaves_not_cached() {
    let mut c: CacheState<u32> = CacheState::from_res(Ok(5));
    assert!(c.is_cached());
    assert_eq!(c.get(), Some(&5));
    assert_eq!(c.take(), Some(5));
    assert!(!c.is_cached());
    assert_eq!(c.try_get().unwrap_err().to_str(), "Not cached any");
}

#[test]
fn cache_state_failed_keeps_error() {
    let c: CacheState<u32> = CacheState::from_res(Err(MuxError::from_str_msg("nope")));
    assert_eq!(c.try_get().unwrap_err().to_str(), "nope");
    assert_eq!(c.get(), None);
}

// ---- mkvinfo and attachments ----

#[test]
fn mkvinfo_name_and_lang() {
    let lines = strings(&["| + Name: Commentary ", "| + Language: rus"]);
    let mut m = Mkvinfo::from_lines(lines);
    assert_eq!(m.try_get_name().unwrap(), "Commentary");
    assert_eq!(m.get_lang(), LangCode::Rus);
}

#[test]
fn mkvinfo_defaults() {
    let m = Mkvinfo::from_lines(strings(&["| + Codec ID: A_AAC"]));
    assert_eq!(m.build_lang().unwrap(), LangCode::Eng);
    assert_eq!(m.build_name().unwrap_err().to_str(), "Not found line with 'Name:'");
}

#[test]
fn attach_cache_kinds() {
    let a = AICache::try_init(3, "Attachment ID 3: type 'font/ttf'".to_string()).unwrap();
    assert_eq!(a.attach_type, AttachType::Font);
    let a = AICache::try_init(4, "Attachment ID 4: type 'image/png'".to_string()).unwrap();
    assert_eq!(a.attach_type, AttachType::Other);
    let e = AICache::try_init(5, "Track ID 0: video".to_string()).unwrap_err();
    assert_eq!(e.to_str(), "Unrecognized track type");
}

// ---- logging ----

#[test]
fn log_level_from_count_and_json() {
    assert_eq!(LogLevel::from_count(0), LogLevel(LevelFilter::Info));
    assert_eq!(LogLevel::from_count(1), LogLevel(LevelFilter::Debug));
    assert_eq!(LogLevel::from_count(9), LogLevel(LevelFilter::Trace));
    let mut args = vec!["x".to_string()];
    LogLevel(LevelFilter::Trace).append_json_args(&mut args);
    LogLevel(LevelFilter::Info).append_json_args(&mut args);
    LogLevel(LevelFilter::Off).append_json_args(&mut args);
    assert_eq!(args, strings(&["x", "-vv", "--quiet"]));
}

#[test]
fn log_prefixes() {
    assert_eq!(color_prefix(Level::Error, false), "Error: ");
    assert_eq!(color_prefix(Level::Warn, true), "\x1b[33mWarning\x1b[0m: ");
    assert_eq!(color_prefix(Level::Info, true), "");
    assert_eq!(color_prefix(Level::Trace, false), "Trace: ");
    assert_eq!(MuxLogger::color_prefix_for(Level::Error, true, false), "\x1b[31mError\x1b[0m: ");
    assert_eq!(MuxLogger::color_prefix_for(Level::Warn, false, true), "Warning: ");
    assert_eq!(MuxLogger::color_prefix_for(Level::Debug, true, false), "Debug: ");
    assert_eq!(MuxLogger::color_prefix_for(Level::Trace, false, true), "\x1b[35mTrace\x1b[0m: ");
    assert_eq!(MuxLogger::color_prefix_for(Level::Info, true, true), "");
}

// ---- grouping ----

#[test]
fn grouping_by_stem_skips_orphans() {
    let ups = stems(&[Some("a"), Some("b"), None]);
    let cands = stems(&[Some("a"), Some("a.eng"), Some("b"), Some("c")]);
    let opts = GroupOptions { range: None, solo: false, need_num: false, out_need_num: false };
    let gs = group_media_by_stem(&ups, &cands, opts);
    assert_eq!(gs.len(), 1);
    assert_eq!(gs[0].files, vec![0, 1]);
    assert_eq!(gs[0].stem, b"a".to_vec());
    assert_eq!(gs[0].out_name_middle, b"a".to_vec());
}

#[test]
fn grouping_solo_and_repeats() {
    let ups = stems(&[Some("b"), Some("b"), Some("a")]);
    let cands = stems(&[Some("a"), Some("b")]);
    let opts = GroupOptions { range: None, solo: true, need_num: false, out_need_num: false };
    let gs = group_media_by_stem(&ups, &cands, opts);
    assert_eq!(gs.len(), 2);
    assert_eq!(gs[0].stem, b"b".to_vec());
    assert_eq!(gs[0].files, vec![1]);
    assert_eq!(gs[1].stem, b"a".to_vec());
}

#[test]
fn grouping_numbers_and_range() {
    let ups = stems(&[Some("ep01 x"), Some("ep02 x"), Some("ep03 x")]);
    let cands = stems(&[Some("ep01 x"), Some("ep02 x"), Some("ep03 x")]);
    let rg = RangeUsize::from_str("2-3").unwrap();
    let opts = GroupOptions { range: Some(rg), solo: true, need_num: true, out_need_num: true };
    let gs = group_media_by_stem(&ups, &cands, opts);
    assert_eq!(gs.len(), 2);
    assert_eq!(gs[0].out_name_middle, b"02".to_vec());
    assert_eq!(gs[0].stem, b"ep02 x".to_vec());
    assert_eq!(gs[1].out_name_middle, b"03".to_vec());
}

// ---- first pass over the command line ----

#[test]
fn raw_config_splits_global_and_target_args() {
    let args = strings(&[
        "--locale", "eng", "-i", "dir", "--target", "t1", "--names", "x", "--target", "g",
        "--list-langs", "-v", "--target", "t1", "--langs", "rus",
    ]);
    let raw = RawMuxConfig::try_from_args(args, &Vec::new()).unwrap();
    assert_eq!(raw.locale, Some(LangCode::Eng));
    assert!(raw.list_langs);
    assert!(!raw.list_targets);
    assert!(raw.call_tool.is_none());
    assert_eq!(raw.args, strings(&["--locale", "eng", "-i", "dir", "-v"]));
    let trg = raw.trg_args.unwrap();
    assert_eq!(trg.len(), 1);
    assert_eq!(trg[0].0, "t1");
    assert_eq!(trg[0].1, strings(&["--names", "x", "--langs", "rus"]));
}

#[test]
fn raw_config_tool_call_takes_the_rest() {
    let args = strings(&["-a", "--mkvinfo", "f.mkv", "--locale"]);
    let raw = RawMuxConfig::try_from_args(args, &Vec::new()).unwrap();
    assert_eq!(raw.args, strings(&["-a"]));
    let (tool, rest) = raw.call_tool.unwrap();
    assert_eq!(tool, Tool::Mkvinfo);
    assert_eq!(tool.as_str(), "mkvinfo");
    assert_eq!(rest, strings(&["f.mkv", "--locale"]));
}

#[test]
fn raw_config_locale_errors() {
    let e = RawMuxConfig::try_from_args(strings(&["--locale"]), &Vec::new()).unwrap_err();
    assert_eq!(e.to_str(), "a value is required for '--locale <lng>' but none was supplied");
    let e = RawMuxConfig::try_from_args(strings(&["--locale", "zz"]), &Vec::new()).unwrap_err();
    assert_eq!(e.to_str(), "Not found a valid language code");
}

#[test]
fn raw_config_plain_args_pass_through() {
    let args = strings(&["-i", "x", "--", "--mkv", "--list"]);
    let raw = RawMuxConfig::try_from_args(args.clone(), &Vec::new()).unwrap();
    assert_eq!(raw.args, args);
    assert!(raw.trg_args.is_none());
    assert!(raw.locale.is_none());
}

// ---- fonts ----

#[test]
fn fonts_first_of_stem_sorted_case_insensitively() {
    let st = stems(&[Some("b"), Some("A"), Some("b"), None, Some("a")]);
    let texts = strings(&["b", "A", "b", "", "a"]);
    assert_eq!(filter_and_sort_fonts(&st, &texts), vec![1, 4, 0]);
}

#[test]
fn fonts_empty() {
    assert!(filter_and_sort_fonts(&Vec::new(), &Vec::new()).is_empty());
}

// ---- command-line option names ----

#[test]
fn option_names() {
    assert_eq!(MuxConfigArg::Input.as_long(), "input");
    assert_eq!(MuxConfigArg::HelpSortFonts.as_long(), "sort-fonts / --no-sort-fonts");
    for f in OffFlag::all() {
        let on = f.to_arg().as_long();
        assert_eq!(f.to_no_arg().as_long(), format!("no-{}", on));
        assert_eq!(f.to_help_arg().as_long(), format!("{} / --no-{}", on, on));
    }
    assert_eq!(OffFlag::all().len(), 6);
}

// ---- tracks ----

#[test]
fn words_and_signs() {
    assert_eq!(str_to_words("[Group] Надписи_Signs.01"), strings(&["Group", "Надписи", "Signs"]));
    assert!(it_signs(" SIGNS "));
    assert!(it_signs("НаДпИсИ"));
    assert!(!it_signs("sign"));
    assert!(it_signs_many(&strings(&["full", "Signs"])));
    assert!(!it_signs_many(&strings(&["full", "subs"])));
}

#[test]
fn stream_and_track_signs() {
    let name = "Eng signs".to_string();
    assert!(stream_it_signs(true, Some(&name), None, None));
    assert!(!stream_it_signs(false, Some(&name), None, None));
    let tail = "full".to_string();
    let rel = "subs/надписи".to_string();
    assert!(stream_it_signs(true, None, Some(&tail), Some(&rel)));
    let w = strings(&["signs"]);
    assert!(ti_it_signs(Some(TrackType::Sub), None, None, Some(&w)));
    assert!(!ti_it_signs(Some(TrackType::Audio), Some(&w), None, None));
    assert!(!ti_it_signs(None, Some(&w), None, None));
}

#[test]
fn track_name_choice() {
    let v = ti_name(Some("User".to_string()), Some("Tag".to_string()), None, None);
    assert!(matches!(v, Value::User(ref s) if s == "User"));
    let v = ti_name(None, Some("Tag".to_string()), None, None);
    assert!(matches!(v, Value::Auto(ref s) if s == "Tag"));
    let v = ti_name(None, None, Some(". Commentary .".to_string()), Some("dir".to_string()));
    assert!(matches!(v, Value::Auto(ref s) if s == "Commentary"));
    let v = ti_name(None, None, Some(".ab ".to_string()), Some("dir".to_string()));
    assert!(matches!(v, Value::Auto(ref s) if s == "dir"));
    let v = ti_name(None, None, Some(".ий".to_string()), None);
    assert!(matches!(v, Value::Auto(ref s) if s == "ий"));
    let v = ti_name(None, None, None, None);
    assert!(!v.is_user());
    assert_eq!(v.into_inner(), "");
}

#[test]
fn track_lang_choice() {
    let v = ti_lang(Some(LangCode::Jpn), Some("eng".to_string()), None, None, None);
    assert!(matches!(v, Value::User(LangCode::Jpn)));
    let v = ti_lang(None, Some("und".to_string()), Some(strings(&["rus"])), None, None);
    assert!(matches!(v, Value::Auto(LangCode::Rus)));
    let v = ti_lang(None, None, Some(strings(&["x"])), Some(strings(&["y"])), Some(strings(&["eng"])));
    assert!(matches!(v, Value::Auto(LangCode::Eng)));
    let v = ti_lang(None, None, None, None, None);
    assert!(matches!(v, Value::Auto(LangCode::Und)));
}

#[test]
fn shortest_stem_first_of_min() {
    let st = stems(&[Some("abc"), None, Some("ab"), Some("xy")]);
    assert_eq!(shortest_stem(&st).unwrap(), 2);
    let e = shortest_stem(&stems(&[None])).unwrap_err();
    assert_eq!(e.to_str(), "Not found any file_stem()");
}

#[test]
fn saved_ids_by_kind() {
    let t = vec![
        (3, TrackType::Audio, true),
        (1, TrackType::Audio, true),
        (2, TrackType::Sub, false),
        (3, TrackType::Audio, true),
        (7, TrackType::Button, true),
    ];
    let s = split_saved_u32_ids(&t);
    assert_eq!(s.audio.iter().copied().collect::<Vec<u32>>(), vec![1, 3]);
    assert!(s.subs.is_empty());
    assert_eq!(s.removed, vec![2]);
    assert_eq!(s.take_kind(TrackType::Button).into_iter().collect::<Vec<u32>>(), vec![7]);
    let n = vec![(5u64, TrackType::Video, true), (2, TrackType::Video, true), (9, TrackType::Button, true)];
    let (a, sb, v) = split_saved_nums(&n);
    assert!(a.is_empty() && sb.is_empty());
    assert_eq!(v, vec![2, 5]);
}

#[test]
fn target_settings_win_over_global() {
    let global = NameMetadata::from_str("global").unwrap();
    let mut t1 = MuxConfigTarget::default_target();
    assert!(t1.is_default());
    t1.track_names = Some(NameMetadata::from_str("t1").unwrap());
    let t2 = MuxConfigTarget::default_target();
    let map = vec![("dir2".to_string(), t2), ("dir1".to_string(), t1)];
    let pick = get_trg_track_names(Some(&map), &strings(&["dir2", "dir1"]), &global);
    assert_eq!(pick.0.single_val.as_deref(), Some("t1"));
    let pick = get_trg_track_names(Some(&map), &strings(&["dir2"]), &global);
    assert_eq!(pick.0.single_val.as_deref(), Some("global"));
    let pick = get_trg_track_names(None, &strings(&["dir1"]), &global);
    assert_eq!(pick.0.single_val.as_deref(), Some("global"));
}

// ---- extensions, globs, targets ----

#[test]
fn extensions_any_case() {
    assert!(is_media_ext(b"mkv"));
    assert!(is_media_ext(b"MKV"));
    assert!(is_media_ext(b"TrueHD"));
    assert!(!is_media_ext(b"txt"));
    assert!(is_font_ext(b"TTF"));
    assert!(!is_font_ext(b"mkv"));
    assert!(is_font_filename(Some(b"otf".as_slice())));
    assert!(!is_font_filename(None));
}

#[test]
fn glob_patterns() {
    let p = GlobSetPattern::from_str("*.tmp,*.bak").unwrap();
    assert_eq!(p.raw(), "*.tmp,*.bak");
    assert!(p.is_match("a.tmp"));
    assert!(p.is_match("dir/b.bak"));
    assert!(!p.is_match("a.mkv"));
    let one = GlobSetPattern::from_str("*.srt").unwrap();
    assert!(one.is_match("x.srt") && !one.is_match("x.tmp"));
    let e = GlobSetPattern::from_str("*.tmp,a[").unwrap_err();
    assert!(e.to_str().starts_with("Invalid pattern 'a[': "));
}

#[test]
fn target_json_args() {
    let mut args = strings(&["-v"]);
    let ts = vec![
        (Some("dir1".to_string()), strings(&["--names", "x"])),
        (Some("dir2".to_string()), Vec::new()),
        (None, strings(&["--langs", "rus"])),
    ];
    append_targets_json_args(&mut args, &ts);
    assert_eq!(args, strings(&["-v", "--target", "dir1", "--names", "x"]));
}

#[test]
fn dir_input_media_check() {
    let listed = stems(&[Some("Show 01"), None]);
    let inputs = vec![b"Show 01.eng".to_vec()];
    assert!(dir_has_input_media(&listed, &inputs));
    let inputs = vec![b"Other".to_vec()];
    assert!(!dir_has_input_media(&listed, &inputs));
}

#[test]
fn mkvinfo_name_errors_first_then_cached() {
    let mut m = Mkvinfo::from_lines(strings(&["| + Codec ID: A_AAC"]));
    assert_eq!(m.try_get_name().unwrap_err().to_str(), "Not found line with 'Name:'");
    assert_eq!(m.try_get_name().unwrap_err().to_str(), "Previously failed to load");
}

#[test]
fn cache_state_mutation() {
    let mut c: CacheState<u32> = CacheState::default_state();
    assert!(c.get_mut().is_none());
    assert_eq!(c.try_mut().unwrap_err().to_str(), "Not cached any");
    let mut c: CacheState<u32> = CacheState::from_res(Ok(1));
    *c.get_mut().unwrap() = 2;
    *c.try_mut().unwrap() += 1;
    assert_eq!(c.try_take().unwrap(), 3);
    assert_eq!(c.try_take().unwrap_err().to_str(), "Not cached any");
    let mut f: CacheState<u32> = CacheState::from_res(Err(MuxError::from_str_msg("bad")));
    assert_eq!(f.try_take().unwrap_err().to_str(), "bad");
}

#[test]
fn file_cache_starts_empty() {
    let c = CacheMIOfFile::default_cache();
    assert!(!c.path_tail.is_cached());
    assert!(!c.words_relative_upmost.is_cached());
}

#[test]
fn target_langs_win_over_global() {
    let global = LangMetadata::from_str("eng").unwrap();
    let mut t1 = MuxConfigTarget::default_target();
    t1.track_langs = Some(LangMetadata::from_str("jpn").unwrap());
    let map = vec![("dir1".to_string(), t1)];
    let pick = get_trg_track_langs(Some(&map), &strings(&["x", "dir1"]), &global);
    assert!(matches!(pick.0.single_val, Some(Lang::Code(LangCode::Jpn))));
    let pick = get_trg_track_langs(Some(&map), &strings(&["x"]), &global);
    assert!(matches!(pick.0.single_val, Some(Lang::Code(LangCode::Eng))));
}

#[test]
fn log_streams() {
    assert!(MuxLogger::log_to_stderr(Level::Error));
    assert!(MuxLogger::log_to_stderr(Level::Warn));
    assert!(!MuxLogger::log_to_stderr(Level::Info));
    assert!(!MuxLogger::log_to_stderr(Level::Trace));
    assert!(MuxLogger::enabled(Level::Trace));
    let p = MuxLogger::get_color_prefix(Level::Error);
    assert!(p == "Error: " || p == "\x1b[31mError\x1b[0m: ");
}

#[test]
fn stream_name_choice() {
    let v = stream_name(Some("U".to_string()), true, false, None, None);
    assert!(matches!(v, Some(Value::User(ref s)) if s == "U"));
    assert!(stream_name(None, true, true, None, Some("p".to_string())).is_none());
    assert!(stream_name(None, false, false, None, Some("p".to_string())).is_none());
    let tail = " .Extra ".to_string();
    let v = stream_name(None, false, true, Some(&tail), Some("p".to_string()));
    assert!(matches!(v, Some(Value::Auto(ref s)) if s == "Extra"));
    let tail = "..".to_string();
    let v = stream_name(None, false, true, Some(&tail), Some("p".to_string()));
    assert!(matches!(v, Some(Value::Auto(ref s)) if s == "p"));
    assert!(stream_name(None, false, true, Some(&tail), None).is_none());
}

#[test]
fn stream_lang_choice() {
    assert!(matches!(stream_lang(Some(LangCode::Rus), false, false, None, None, None), Some(Value::User(LangCode::Rus))));
    let name = "Japanese jpn".to_string();
    assert!(stream_lang(None, false, true, Some(&name), None, None).is_none());
    assert!(stream_lang(None, true, false, Some(&name), None, None).is_none());
    assert!(matches!(stream_lang(None, true, true, Some(&name), None, None), Some(Value::Auto(LangCode::Jpn))));
    let und = "und".to_string();
    let rel = "eng/subs".to_string();
    assert!(matches!(stream_lang(None, true, true, Some(&und), None, Some(&rel)), Some(Value::Auto(LangCode::Eng))));
    assert!(stream_lang(None, true, true, Some(&und), None, None).is_none());
    assert!(text_it_signs("01 [signs]"));
}

#[test]
fn json_args_read_and_write() {
    let v = json_args_from_bytes(b"[\"-v\", \"--solo\"]").unwrap();
    assert_eq!(v, strings(&["-v", "--solo"]));
    assert!(json_args_from_bytes(b"{}").is_err());
    assert!(json_args_from_bytes(b"[1]").is_err());
    let t = json_bytes_of_args(&strings(&["a", "b"]));
    assert_eq!(t, b"[\n  \"a\",\n  \"b\"\n]".to_vec());
    assert_eq!(json_args_from_bytes(&t).unwrap(), strings(&["a", "b"]));
    assert_eq!(json_bytes_of_args(&Vec::new()), b"[]".to_vec());
    let odd = strings(&["q\"b\\", "t\tn\nc\u{1}", "ü€😀"]);
    let t = json_bytes_of_args(&odd);
    assert_eq!(
        t,
        "[\n  \"q\\\"b\\\\\",\n  \"t\\tn\\nc\\u0001\",\n  \"ü€😀\"\n]".as_bytes().to_vec()
    );
    assert_eq!(json_args_from_bytes(&t).unwrap(), odd);
}

#[test]
fn raw_config_target_takes_following_args() {
    let raw = RawMuxConfig::try_from_args(strings(&["--target", "dir", "-a", "x"]), &Vec::new()).unwrap();
    assert!(raw.args.is_empty());
    let trg = raw.trg_args.unwrap();
    assert_eq!(trg.len(), 1);
    assert_eq!(trg[0].0, "dir");
    assert_eq!(trg[0].1, strings(&["-a", "x"]));
}

#[test]
fn extension_case_law_example() {
    use_ext_case(b"MkV", b"mkv");
    use_ext_case(b"TTF", b"ttf");
}

fn use_ext_case(a: &[u8], b: &[u8]) {
    assert_eq!(mux_media::extensions::is_media_ext(a), mux_media::extensions::is_media_ext(b));
    assert_eq!(mux_media::extensions::is_font_ext(a), mux_media::extensions::is_font_ext(b));
}

#[test]
fn first_pass_actions() {
    let raw = RawMuxConfig::try_from_args(strings(&["--list-targets", "--list-langs"]), &Vec::new()).unwrap();
    assert_eq!(raw.action(), FirstPassAction::ListLangs);
    let raw = RawMuxConfig::try_from_args(strings(&["--list-targets", "--ffprobe", "x"]), &Vec::new()).unwrap();
    assert_eq!(raw.action(), FirstPassAction::ListTargets);
    let raw = RawMuxConfig::try_from_args(strings(&["--ffprobe", "x"]), &Vec::new()).unwrap();
    assert_eq!(raw.action(), FirstPassAction::CallTool);
    let raw = RawMuxConfig::try_from_args(strings(&["-v"]), &Vec::new()).unwrap();
    assert_eq!(raw.action(), FirstPassAction::Proceed);
}

#[test]
fn verbosity_saved_back() {
    for n in 1u8..5 {
        let level = LogLevel::from_count(n);
        let mut args = Vec::new();
        level.append_json_args(&mut args);
        let a = &args[0];
        let vs = a.chars().filter(|c| *c == 'v').count() as u8;
        assert_eq!(LogLevel::from_count(vs), level);
    }
    let mut args = Vec::new();
    LogLevel::from_count(0).append_json_args(&mut args);
    assert!(args.is_empty());
}

fn plain_config() -> MuxConfig {
    MuxConfig {
        input: None,
        range: None,
        skip: None,
        down: DEFAULT_DOWN,
        locale: LangCode::Eng,
        verbosity: LogLevel(LevelFilter::Info),
        no_config: false,
        exit_on_err: false,
        names: None,
        langs: None,
        targets: Vec::new(),
    }
}

#[test]
fn mux_config_json_args_default() {
    assert_eq!(plain_config().to_json_args(), strings(&["--locale", "eng"]));
}

#[test]
fn mux_config_json_args_full() {
    let mut c = plain_config();
    c.input = Some("/media".to_string());
    c.range = Some("2-5".to_string());
    c.skip = Some("*.srt".to_string());
    c.down = 3;
    c.locale = LangCode::Rus;
    c.verbosity = LogLevel(LevelFilter::Trace);
    c.no_config = true;
    c.exit_on_err = true;
    c.names = Some("0:Main".to_string());
    c.langs = Some("0:jpn".to_string());
    c.targets = vec![
        (Some("/media/subs".to_string()), strings(&["--no-audio"])),
        (None, strings(&["--no-video"])),
        (Some("/media/empty".to_string()), Vec::new()),
        (Some("audio".to_string()), strings(&["--langs", "0:eng", "--no-subs"])),
    ];
    let expected = strings(&[
        "--input", "/media", "--range", "2-5", "--skip", "*.srt", "--down", "3", "--locale", "rus",
        "-vv", "--no-config", "--exit-on-err", "--names", "0:Main", "--langs", "0:jpn", "--target",
        "/media/subs", "--no-audio", "--target", "audio", "--langs", "0:eng", "--no-subs",
    ]);
    assert_eq!(c.to_json_args(), expected);
}

#[test]
fn mux_config_json_args_verbosity() {
    let mut c = plain_config();
    c.verbosity = LogLevel(LevelFilter::Off);
    assert_eq!(c.to_json_args(), strings(&["--locale", "eng", "--quiet"]));
    c.verbosity = LogLevel(LevelFilter::Debug);
    assert_eq!(c.to_json_args(), strings(&["--locale", "eng", "-v"]));
}

#[test]
fn mux_config_json_bytes_read_back() {
    let mut c = plain_config();
    c.input = Some("dir \"quoted\"".to_string());
    c.verbosity = LogLevel(LevelFilter::Debug);
    c.targets = vec![(Some("video".to_string()), strings(&["--no-subs"]))];
    let args = c.to_json_args();
    let bytes = json_bytes_of_args(&args);
    assert_eq!(json_args_from_bytes(&bytes).unwrap(), args);
}

#[test]
fn lang_code_row_codes_any_case() {
    for code in ["chi", "zh", "zho", "CHI", "ZH", "ZHO", "Zh", "zHo"] {
        assert_eq!(LangCode::get(code), Some(LangCode::Chi));
    }
    for text in ["English eng", "x und eng", "Movie.rus.srt", "English"] {
        assert_eq!(LangCode::get(&text.to_ascii_uppercase()), LangCode::get(text));
    }
    assert_eq!(LangCode::get("ENGLISH"), None);
}

#[test]
fn mux_config_json_args_depth() {
    let mut c = plain_config();
    c.down = 0;
    assert_eq!(c.to_json_args(), strings(&["--down", "0", "--locale", "eng"]));
    c.down = 1234567;
    assert_eq!(c.to_json_args(), strings(&["--down", "1234567", "--locale", "eng"]));
    c.down = 16;
    assert_eq!(c.to_json_args(), strings(&["--locale", "eng"]));
}

#[test]
fn decimal_text_of_numbers() {
    for n in [0usize, 7, 10, 99, 100, 4096, usize::MAX] {
        assert_eq!(decimal_text(n), n.to_string());
    }
}

#[test]
fn mux_config_json_args_empty_skip_left_out() {
    let mut c = plain_config();
    c.skip = Some(String::new());
    assert_eq!(c.to_json_args(), strings(&["--locale", "eng"]));
}

fn resolved(v: &[(&str, Result<&str, &str>)]) -> Vec<(String, Result<String, String>)> {
    v.iter()
        .map(|(t, r)| (t.to_string(), r.map(|k| k.to_string()).map_err(|e| e.to_string())))
        .collect()
}

#[test]
fn raw_targets_keyed_as_resolved() {
    let res = resolved(&[("dir", Ok("/abs/dir")), ("./dir/", Ok("/abs/dir")), ("other", Ok("/abs/other"))]);
    let args = strings(&["--target", "dir", "-a", "--target", "other", "-b", "--target", "./dir/", "-c", "x"]);
    let raw = RawMuxConfig::try_from_args(args, &res).unwrap();
    let trg = raw.trg_args.unwrap();
    assert_eq!(trg.len(), 2);
    assert_eq!(trg[0].0, "/abs/dir");
    assert_eq!(trg[0].1, strings(&["-a", "-c", "x"]));
    assert_eq!(trg[1].0, "/abs/other");
    assert_eq!(trg[1].1, strings(&["-b"]));
    assert!(raw.args.is_empty());
}

#[test]
fn raw_target_resolution_error() {
    let res = resolved(&[("missing", Err("Incorrect path target 'missing': not found"))]);
    let args = strings(&["-v", "--target", "missing", "-a"]);
    let e = RawMuxConfig::try_from_args(args, &res).unwrap_err();
    assert_eq!(e.to_str(), "Incorrect path target 'missing': not found");
    let args = strings(&["--target", "g", "-a", "--target", "free", "-b"]);
    let raw = RawMuxConfig::try_from_args(args, &res).unwrap();
    assert_eq!(raw.args, strings(&["-a"]));
    assert_eq!(raw.trg_args.unwrap(), vec![("free".to_string(), strings(&["-b"]))]);
}
