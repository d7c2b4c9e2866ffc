//! The long names of the command-line options of the mux settings, and the
//! options that come as a pair of switches (`--x` / `--no-x`).
use vstd::prelude::*;

verus! {

/// A command-line option of the mux settings.
#[derive(Clone, Copy, Debug, PartialEq, Eq, Structural)]
pub enum MuxConfigArg {
    Input,
    Output,
    Range,
    Skip,
    Up,
    Check,
    Down,
    Locale,
    Verbose,
    Quiet,
    Config,
    NoConfig,
    ExitOnErr,
    Pro,
    HelpAddDefaults,
    AddDefaults,
    NoAddDefaults,
    HelpAddForceds,
    AddForceds,
    NoAddForceds,
    HelpAddEnableds,
    AddEnableds,
    NoAddEnableds,
    HelpAddNames,
    AddNames,
    NoAddNames,
    HelpAddLangs,
    AddLangs,
    NoAddLangs,
    HelpSortFonts,
    SortFonts,
    NoSortFonts,
    RmSegments,
    NoLinked,
    LessRetiming,
    Target,
    TargetHelp,
    ListTargets,
    Audio,
    NoAudio,
    Subs,
    NoSubs,
    Video,
    NoVideo,
    Buttons,
    NoButtons,
    Chapters,
    NoChapters,
    Fonts,
    NoFonts,
    Attachs,
    NoAttachs,
    Defaults,
    LimDefaults,
    Forceds,
    LimForceds,
    Enableds,
    LimEnableds,
    Names,
    Langs,
    Specials,
    ListLangs,
    FfprobeHelp,
    MkvextractHelp,
    MkvinfoHelp,
    MkvmergeHelp,
    Version,
    Help,
}

/// The long name of an option (what follows `--`).
pub open spec fn arg_long(a: MuxConfigArg) -> Seq<char> {
    match a {
        MuxConfigArg::Input => "input"@,
        MuxConfigArg::Output => "output"@,
        MuxConfigArg::Range => "range"@,
        MuxConfigArg::Skip => "skip"@,
        MuxConfigArg::Up => "up"@,
        MuxConfigArg::Check => "check"@,
        MuxConfigArg::Down => "down"@,
        MuxConfigArg::Locale => "locale"@,
        MuxConfigArg::Verbose => "verbose"@,
        MuxConfigArg::Quiet => "quiet"@,
        MuxConfigArg::Config => "config"@,
        MuxConfigArg::NoConfig => "no-config"@,
        MuxConfigArg::ExitOnErr => "exit-on-err"@,
        MuxConfigArg::Pro => "pro"@,
        MuxConfigArg::HelpAddDefaults => "add-defaults / --no-add-defaults"@,
        MuxConfigArg::AddDefaults => "add-defaults"@,
        MuxConfigArg::NoAddDefaults => "no-add-defaults"@,
        MuxConfigArg::HelpAddForceds => "add-forceds / --no-add-forceds"@,
        MuxConfigArg::AddForceds => "add-forceds"@,
        MuxConfigArg::NoAddForceds => "no-add-forceds"@,
        MuxConfigArg::HelpAddEnableds => "add-enableds / --no-add-enableds"@,
        MuxConfigArg::AddEnableds => "add-enableds"@,
        MuxConfigArg::NoAddEnableds => "no-add-enableds"@,
        MuxConfigArg::HelpAddNames => "add-names / --no-add-names"@,
        MuxConfigArg::AddNames => "add-names"@,
        MuxConfigArg::NoAddNames => "no-add-names"@,
        MuxConfigArg::HelpAddLangs => "add-langs / --no-add-langs"@,
        MuxConfigArg::AddLangs => "add-langs"@,
        MuxConfigArg::NoAddLangs => "no-add-langs"@,
        MuxConfigArg::HelpSortFonts => "sort-fonts / --no-sort-fonts"@,
        MuxConfigArg::SortFonts => "sort-fonts"@,
        MuxConfigArg::NoSortFonts => "no-sort-fonts"@,
        MuxConfigArg::RmSegments => "rm-segments"@,
        MuxConfigArg::NoLinked => "no-linked"@,
        MuxConfigArg::LessRetiming => "less-retiming"@,
        MuxConfigArg::Target => "target"@,
        MuxConfigArg::TargetHelp => "target <trg> [options]"@,
        MuxConfigArg::ListTargets => "list-targets"@,
        MuxConfigArg::Audio => "audio"@,
        MuxConfigArg::NoAudio => "no-audio"@,
        MuxConfigArg::Subs => "subs"@,
        MuxConfigArg::NoSubs => "no-subs"@,
        MuxConfigArg::Video => "video"@,
        MuxConfigArg::NoVideo => "no-video"@,
        MuxConfigArg::Buttons => "buttons"@,
        MuxConfigArg::NoButtons => "no-buttons"@,
        MuxConfigArg::Chapters => "chapters"@,
        MuxConfigArg::NoChapters => "no-chapters"@,
        MuxConfigArg::Fonts => "fonts"@,
        MuxConfigArg::NoFonts => "no-fonts"@,
        MuxConfigArg::Attachs => "attachs"@,
        MuxConfigArg::NoAttachs => "no-attachs"@,
        MuxConfigArg::Defaults => "defaults"@,
        MuxConfigArg::LimDefaults => "lim-defaults"@,
        MuxConfigArg::Forceds => "forceds"@,
        MuxConfigArg::LimForceds => "lim-forceds"@,
        MuxConfigArg::Enableds => "enableds"@,
        MuxConfigArg::LimEnableds => "lim-enableds"@,
        MuxConfigArg::Names => "names"@,
        MuxConfigArg::Langs => "langs"@,
        MuxConfigArg::Specials => "specials"@,
        MuxConfigArg::ListLangs => "list-langs"@,
        MuxConfigArg::FfprobeHelp => "ffprobe [options]"@,
        MuxConfigArg::MkvextractHelp => "mkvextract [options]"@,
        MuxConfigArg::MkvinfoHelp => "mkvinfo [options]"@,
        MuxConfigArg::MkvmergeHelp => "mkvmerge [options]"@,
        MuxConfigArg::Version => "version"@,
        MuxConfigArg::Help => "help"@,
    }
}

impl MuxConfigArg {
    /// The long name of the option (what follows `--`).
    pub fn as_long(self) -> (r: &'static str)
        ensures
            r@ == arg_long(self),
    {
        match self {
            MuxConfigArg::Input => "input",
            MuxConfigArg::Output => "output",
            MuxConfigArg::Range => "range",
            MuxConfigArg::Skip => "skip",
            MuxConfigArg::Up => "up",
            MuxConfigArg::Check => "check",
            MuxConfigArg::Down => "down",
            MuxConfigArg::Locale => "locale",
            MuxConfigArg::Verbose => "verbose",
            MuxConfigArg::Quiet => "quiet",
            MuxConfigArg::Config => "config",
            MuxConfigArg::NoConfig => "no-config",
            MuxConfigArg::ExitOnErr => "exit-on-err",
            MuxConfigArg::Pro => "pro",
            MuxConfigArg::HelpAddDefaults => "add-defaults / --no-add-defaults",
            MuxConfigArg::AddDefaults => "add-defaults",
            MuxConfigArg::NoAddDefaults => "no-add-defaults",
            MuxConfigArg::HelpAddForceds => "add-forceds / --no-add-forceds",
            MuxConfigArg::AddForceds => "add-forceds",
            MuxConfigArg::NoAddForceds => "no-add-forceds",
            MuxConfigArg::HelpAddEnableds => "add-enableds / --no-add-enableds",
            MuxConfigArg::AddEnableds => "add-enableds",
            MuxConfigArg::NoAddEnableds => "no-add-enableds",
            MuxConfigArg::HelpAddNames => "add-names / --no-add-names",
            MuxConfigArg::AddNames => "add-names",
            MuxConfigArg::NoAddNames => "no-add-names",
            MuxConfigArg::HelpAddLangs => "add-langs / --no-add-langs",
            MuxConfigArg::AddLangs => "add-langs",
            MuxConfigArg::NoAddLangs => "no-add-langs",
            MuxConfigArg::HelpSortFonts => "sort-fonts / --no-sort-fonts",
            MuxConfigArg::SortFonts => "sort-fonts",
            MuxConfigArg::NoSortFonts => "no-sort-fonts",
            MuxConfigArg::RmSegments => "rm-segments",
            MuxConfigArg::NoLinked => "no-linked",
            MuxConfigArg::LessRetiming => "less-retiming",
            MuxConfigArg::Target => "target",
            MuxConfigArg::TargetHelp => "target <trg> [options]",
            MuxConfigArg::ListTargets => "list-targets",
            MuxConfigArg::Audio => "audio",
            MuxConfigArg::NoAudio => "no-audio",
            MuxConfigArg::Subs => "subs",
            MuxConfigArg::NoSubs => "no-subs",
            MuxConfigArg::Video => "video",
            MuxConfigArg::NoVideo => "no-video",
            MuxConfigArg::Buttons => "buttons",
            MuxConfigArg::NoButtons => "no-buttons",
            MuxConfigArg::Chapters => "chapters",
            MuxConfigArg::NoChapters => "no-chapters",
            MuxConfigArg::Fonts => "fonts",
            MuxConfigArg::NoFonts => "no-fonts",
            MuxConfigArg::Attachs => "attachs",
            MuxConfigArg::NoAttachs => "no-attachs",
            MuxConfigArg::Defaults => "defaults",
            MuxConfigArg::LimDefaults => "lim-defaults",
            MuxConfigArg::Forceds => "forceds",
            MuxConfigArg::LimForceds => "lim-forceds",
            MuxConfigArg::Enableds => "enableds",
            MuxConfigArg::LimEnableds => "lim-enableds",
            MuxConfigArg::Names => "names",
            MuxConfigArg::Langs => "langs",
            MuxConfigArg::Specials => "specials",
            MuxConfigArg::ListLangs => "list-langs",
            MuxConfigArg::FfprobeHelp => "ffprobe [options]",
            MuxConfigArg::MkvextractHelp => "mkvextract [options]",
            MuxConfigArg::MkvinfoHelp => "mkvinfo [options]",
            MuxConfigArg::MkvmergeHelp => "mkvmerge [options]",
            MuxConfigArg::Version => "version",
            MuxConfigArg::Help => "help",
        }
    }
}

/// A setting that is on by default and has a pair of switches: `--<name>`
/// turns it on, `--no-<name>` off, and the help shows both.
#[derive(Clone, Copy, Debug, PartialEq, Eq, Structural)]
pub enum OffFlag {
    AddDefaults,
    AddForceds,
    AddEnableds,
    AddNames,
    AddLangs,
    SortFonts,
}

/// The option that documents both switches.
pub open spec fn spec_help_arg(f: OffFlag) -> MuxConfigArg {
    match f {
        OffFlag::AddDefaults => MuxConfigArg::HelpAddDefaults,
        OffFlag::AddForceds => MuxConfigArg::HelpAddForceds,
        OffFlag::AddEnableds => MuxConfigArg::HelpAddEnableds,
        OffFlag::AddNames => MuxConfigArg::HelpAddNames,
        OffFlag::AddLangs => MuxConfigArg::HelpAddLangs,
        OffFlag::SortFonts => MuxConfigArg::HelpSortFonts,
    }
}

/// The switch that turns the setting on.
pub open spec fn spec_on_arg(f: OffFlag) -> MuxConfigArg {
    match f {
        OffFlag::AddDefaults => MuxConfigArg::AddDefaults,
        OffFlag::AddForceds => MuxConfigArg::AddForceds,
        OffFlag::AddEnableds => MuxConfigArg::AddEnableds,
        OffFlag::AddNames => MuxConfigArg::AddNames,
        OffFlag::AddLangs => MuxConfigArg::AddLangs,
        OffFlag::SortFonts => MuxConfigArg::SortFonts,
    }
}

/// The switch that turns the setting off.
pub open spec fn spec_off_arg(f: OffFlag) -> MuxConfigArg {
    match f {
        OffFlag::AddDefaults => MuxConfigArg::NoAddDefaults,
        OffFlag::AddForceds => MuxConfigArg::NoAddForceds,
        OffFlag::AddEnableds => MuxConfigArg::NoAddEnableds,
        OffFlag::AddNames => MuxConfigArg::NoAddNames,
        OffFlag::AddLangs => MuxConfigArg::NoAddLangs,
        OffFlag::SortFonts => MuxConfigArg::NoSortFonts,
    }
}

impl OffFlag {
    /// Every flag, in declaration order.
    pub fn all() -> (r: Vec<OffFlag>)
        ensures
            r@ == seq![OffFlag::AddDefaults, OffFlag::AddForceds, OffFlag::AddEnableds, OffFlag::AddNames, OffFlag::AddLangs, OffFlag::SortFonts],
    {
        let mut v: Vec<OffFlag> = Vec::new();
        v.push(OffFlag::AddDefaults);
        v.push(OffFlag::AddForceds);
        v.push(OffFlag::AddEnableds);
        v.push(OffFlag::AddNames);
        v.push(OffFlag::AddLangs);
        v.push(OffFlag::SortFonts);
        v
    }

    /// The option that documents both switches.
    pub fn to_help_arg(self) -> (r: MuxConfigArg)
        ensures
            r == spec_help_arg(self),
    {
        match self {
            OffFlag::AddDefaults => MuxConfigArg::HelpAddDefaults,
            OffFlag::AddForceds => MuxConfigArg::HelpAddForceds,
            OffFlag::AddEnableds => MuxConfigArg::HelpAddEnableds,
            OffFlag::AddNames => MuxConfigArg::HelpAddNames,
            OffFlag::AddLangs => MuxConfigArg::HelpAddLangs,
            OffFlag::SortFonts => MuxConfigArg::HelpSortFonts,
        }
    }

    /// The switch that turns the setting on.
    pub fn to_arg(self) -> (r: MuxConfigArg)
        ensures
            r == spec_on_arg(self),
    {
        match self {
            OffFlag::AddDefaults => MuxConfigArg::AddDefaults,
            OffFlag::AddForceds => MuxConfigArg::AddForceds,
            OffFlag::AddEnableds => MuxConfigArg::AddEnableds,
            OffFlag::AddNames => MuxConfigArg::AddNames,
            OffFlag::AddLangs => MuxConfigArg::AddLangs,
            OffFlag::SortFonts => MuxConfigArg::SortFonts,
        }
    }

    /// The switch that turns the setting off.
    pub fn to_no_arg(self) -> (r: MuxConfigArg)
        ensures
            r == spec_off_arg(self),
    {
        match self {
            OffFlag::AddDefaults => MuxConfigArg::NoAddDefaults,
            OffFlag::AddForceds => MuxConfigArg::NoAddForceds,
            OffFlag::AddEnableds => MuxConfigArg::NoAddEnableds,
            OffFlag::AddNames => MuxConfigArg::NoAddNames,
            OffFlag::AddLangs => MuxConfigArg::NoAddLangs,
            OffFlag::SortFonts => MuxConfigArg::NoSortFonts,
        }
    }

}

/// Law: the switch that turns a setting off is named `no-` and the name of
/// the switch that turns it on, and the help option is named after both,
/// as `<on> / --<off>`.
pub proof fn lemma_off_flag_names(f: OffFlag)
    ensures
        arg_long(spec_off_arg(f)) == "no-"@ + arg_long(spec_on_arg(f)),
        arg_long(spec_help_arg(f)) == arg_long(spec_on_arg(f)) + " / --"@ + arg_long(spec_off_arg(f)),
{
    reveal_strlit("no-");
    reveal_strlit(" / --");
    match f {
        OffFlag::AddDefaults => {
            reveal_strlit("add-defaults");
            reveal_strlit("no-add-defaults");
            reveal_strlit("add-defaults / --no-add-defaults");
            assert(arg_long(spec_off_arg(f)) =~= "no-"@ + arg_long(spec_on_arg(f)));
            assert(arg_long(spec_help_arg(f)) =~= arg_long(spec_on_arg(f)) + " / --"@ + arg_long(spec_off_arg(f)));
        },
        OffFlag::AddForceds => {
            reveal_strlit("add-forceds");
            reveal_strlit("no-add-forceds");
            reveal_strlit("add-forceds / --no-add-forceds");
            assert(arg_long(spec_off_arg(f)) =~= "no-"@ + arg_long(spec_on_arg(f)));
            assert(arg_long(spec_help_arg(f)) =~= arg_long(spec_on_arg(f)) + " / --"@ + arg_long(spec_off_arg(f)));
        },
        OffFlag::AddEnableds => {
            reveal_strlit("add-enableds");
            reveal_strlit("no-add-enableds");
            reveal_strlit("add-enableds / --no-add-enableds");
            assert(arg_long(spec_off_arg(f)) =~= "no-"@ + arg_long(spec_on_arg(f)));
            assert(arg_long(spec_help_arg(f)) =~= arg_long(spec_on_arg(f)) + " / --"@ + arg_long(spec_off_arg(f)));
        },
        OffFlag::AddNames => {
            reveal_strlit("add-names");
            reveal_strlit("no-add-names");
            reveal_strlit("add-names / --no-add-names");
            assert(arg_long(spec_off_arg(f)) =~= "no-"@ + arg_long(spec_on_arg(f)));
            assert(arg_long(spec_help_arg(f)) =~= arg_long(spec_on_arg(f)) + " / --"@ + arg_long(spec_off_arg(f)));
        },
        OffFlag::AddLangs => {
            reveal_strlit("add-langs");
            reveal_strlit("no-add-langs");
            reveal_strlit("add-langs / --no-add-langs");
            assert(arg_long(spec_off_arg(f)) =~= "no-"@ + arg_long(spec_on_arg(f)));
            assert(arg_long(spec_help_arg(f)) =~= arg_long(spec_on_arg(f)) + " / --"@ + arg_long(spec_off_arg(f)));
        },
        OffFlag::SortFonts => {
            reveal_strlit("sort-fonts");
            reveal_strlit("no-sort-fonts");
            reveal_strlit("sort-fonts / --no-sort-fonts");
            assert(arg_long(spec_off_arg(f)) =~= "no-"@ + arg_long(spec_on_arg(f)));
            assert(arg_long(spec_help_arg(f)) =~= arg_long(spec_on_arg(f)) + " / --"@ + arg_long(spec_off_arg(f)));
        },
    }
}

} // verus!
