//! The mux settings as plain values, and the command-line arguments that
//! save them: written in a fixed order, global settings first, then each
//! target with its own arguments.
use vstd::prelude::*;
use crate::lang::{lemma_code_roundtrip, spec_code_str, spec_get_code};
use crate::lang_table::LangCode;
use crate::logger::{LevelFilter, LogLevel};
use crate::mux_target::{append_targets_json_args, targets_json_args, targets_view};
use crate::strs::{decimal, decimal_text, lemma_decimal_parse, parse_usize};
use crate::text::string_views;

verus! {

/// The abstract value of a [`MuxConfig`].
pub struct MuxConfigView {
    pub input: Option<Seq<char>>,
    pub range: Option<Seq<char>>,
    pub skip: Option<Seq<char>>,
    pub down: nat,
    pub locale: LangCode,
    pub verbosity: LevelFilter,
    pub no_config: bool,
    pub exit_on_err: bool,
    pub names: Option<Seq<char>>,
    pub langs: Option<Seq<char>>,
    pub targets: Seq<(Option<Seq<char>>, Seq<Seq<char>>)>,
}

/// The mux settings: the values of the options as given, the locale, the
/// verbosity, the switches, and the arguments of each target (its path as
/// text, `None` when the path is not text).
#[derive(Debug)]
pub struct MuxConfig {
    pub input: Option<String>,
    pub range: Option<String>,
    pub skip: Option<String>,
    pub down: usize,
    pub locale: LangCode,
    pub verbosity: LogLevel,
    pub no_config: bool,
    pub exit_on_err: bool,
    pub names: Option<String>,
    pub langs: Option<String>,
    pub targets: Vec<(Option<String>, Vec<String>)>,
}

/// The view of an optional string.
pub open spec fn opt_text(o: Option<String>) -> Option<Seq<char>> {
    match o {
        Some(s) => Some(s@),
        None => None,
    }
}

impl View for MuxConfig {
    type V = MuxConfigView;

    open spec fn view(&self) -> MuxConfigView {
        MuxConfigView {
            input: opt_text(self.input),
            range: opt_text(self.range),
            skip: opt_text(self.skip),
            down: self.down as nat,
            locale: self.locale,
            verbosity: self.verbosity.0,
            no_config: self.no_config,
            exit_on_err: self.exit_on_err,
            names: opt_text(self.names),
            langs: opt_text(self.langs),
            targets: targets_view(self.targets@),
        }
    }
}

/// `opt` and its value, when there is one.
pub open spec fn opt_seg(opt: Seq<char>, v: Option<Seq<char>>) -> Seq<Seq<char>> {
    match v {
        Some(x) => seq![opt, x],
        None => seq![],
    }
}

/// A text that is not empty.
pub open spec fn nonempty_text(v: Option<Seq<char>>) -> Option<Seq<char>> {
    match v {
        Some(x) if x.len() > 0 => Some(x),
        _ => None,
    }
}

/// The depth of the subdirectories scanned when none is given.
pub const DEFAULT_DOWN: usize = 16;

/// `--down` and the depth, when it is not the default one.
pub open spec fn down_seg(d: nat) -> Seq<Seq<char>> {
    if d == DEFAULT_DOWN as nat {
        seq![]
    } else {
        seq!["--down"@, decimal(d)]
    }
}

/// `opt` when the switch is on.
pub open spec fn flag_seg(opt: Seq<char>, on: bool) -> Seq<Seq<char>> {
    if on {
        seq![opt]
    } else {
        seq![]
    }
}

/// The argument that gives the verbosity back, when it is not the default.
pub open spec fn verb_seg(l: LevelFilter) -> Seq<Seq<char>> {
    match LogLevel(l).spec_json_arg() {
        Some(a) => seq![a],
        None => seq![],
    }
}

/// The arguments of the global settings.
pub open spec fn global_json_args(c: MuxConfigView) -> Seq<Seq<char>> {
    opt_seg("--input"@, c.input) + opt_seg("--range"@, c.range) + opt_seg(
        "--skip"@,
        nonempty_text(c.skip),
    ) + down_seg(c.down) + seq!["--locale"@, spec_code_str(c.locale)] + verb_seg(
        c.verbosity,
    ) + flag_seg("--no-config"@, c.no_config) + flag_seg("--exit-on-err"@, c.exit_on_err)
        + opt_seg("--names"@, c.names) + opt_seg("--langs"@, c.langs)
}

/// The arguments that save the settings: the global ones, then those of
/// each target that has a path as text and arguments.
pub open spec fn spec_json_args(c: MuxConfigView) -> Seq<Seq<char>> {
    global_json_args(c) + targets_json_args(c.targets)
}

/// The settings before any argument is read.
pub open spec fn default_config() -> MuxConfigView {
    MuxConfigView {
        input: None,
        range: None,
        skip: None,
        down: DEFAULT_DOWN as nat,
        locale: LangCode::Und,
        verbosity: LevelFilter::Info,
        no_config: false,
        exit_on_err: false,
        names: None,
        langs: None,
        targets: seq![],
    }
}

/// An option that takes a text value.
pub open spec fn is_value_opt(a: Seq<char>) -> bool {
    a == "--input"@ || a == "--range"@ || a == "--skip"@ || a == "--names"@ || a == "--langs"@
}

/// The settings with the value `v` of the option `a`.
pub open spec fn set_value(acc: MuxConfigView, a: Seq<char>, v: Seq<char>) -> MuxConfigView {
    if a == "--input"@ {
        MuxConfigView { input: Some(v), ..acc }
    } else if a == "--range"@ {
        MuxConfigView { range: Some(v), ..acc }
    } else if a == "--skip"@ {
        MuxConfigView { skip: Some(v), ..acc }
    } else if a == "--names"@ {
        MuxConfigView { names: Some(v), ..acc }
    } else {
        MuxConfigView { langs: Some(v), ..acc }
    }
}

/// The number of arguments before the first `--target`.
pub open spec fn until_target(s: Seq<Seq<char>>) -> nat
    decreases s.len(),
{
    if s.len() == 0 || s[0] == "--target"@ {
        0
    } else {
        1 + until_target(s.skip(1))
    }
}

/// Reads targets: each `--target <path>` with the arguments up to the next
/// `--target`, appended to `acc`; `None` for anything else.
pub open spec fn read_targets(
    args: Seq<Seq<char>>,
    acc: Seq<(Option<Seq<char>>, Seq<Seq<char>>)>,
) -> Option<Seq<(Option<Seq<char>>, Seq<Seq<char>>)>>
    decreases args.len(),
{
    if args.len() == 0 {
        Some(acc)
    } else if args[0] == "--target"@ && args.len() >= 2 {
        let rest = args.skip(2);
        let n = until_target(rest);
        if n <= rest.len() {
            read_targets(rest.skip(n as int), acc.push((Some(args[1]), rest.take(n as int))))
        } else {
            None
        }
    } else {
        None
    }
}

/// Reads arguments into settings: value options, `--locale <code>`, the
/// verbosity arguments and switches, then the targets; `None` for an
/// argument that is none of these.
#[verifier::opaque]
pub open spec fn read_args(args: Seq<Seq<char>>, acc: MuxConfigView) -> Option<MuxConfigView>
    decreases args.len(),
{
    if args.len() == 0 {
        Some(acc)
    } else {
        let a = args[0];
        if a == "--target"@ {
            match read_targets(args, seq![]) {
                Some(ts) => Some(MuxConfigView { targets: ts, ..acc }),
                None => None,
            }
        } else if is_value_opt(a) {
            if args.len() < 2 {
                None
            } else {
                read_args(args.skip(2), set_value(acc, a, args[1]))
            }
        } else if a == "--down"@ {
            if args.len() < 2 {
                None
            } else {
                match parse_usize(args[1]) {
                    Some(n) => read_args(args.skip(2), MuxConfigView { down: n, ..acc }),
                    None => None,
                }
            }
        } else if a == "--locale"@ {
            if args.len() < 2 {
                None
            } else {
                match spec_get_code(args[1]) {
                    Some(c) => read_args(args.skip(2), MuxConfigView { locale: c, ..acc }),
                    None => None,
                }
            }
        } else if a == "--quiet"@ {
            read_args(args.skip(1), MuxConfigView { verbosity: LevelFilter::Off, ..acc })
        } else if a == "-v"@ {
            read_args(args.skip(1), MuxConfigView { verbosity: LevelFilter::Debug, ..acc })
        } else if a == "-vv"@ {
            read_args(args.skip(1), MuxConfigView { verbosity: LevelFilter::Trace, ..acc })
        } else if a == "--no-config"@ {
            read_args(args.skip(1), MuxConfigView { no_config: true, ..acc })
        } else if a == "--exit-on-err"@ {
            read_args(args.skip(1), MuxConfigView { exit_on_err: true, ..acc })
        } else {
            None
        }
    }
}

/// The settings saved in these arguments.
pub open spec fn spec_read_config(args: Seq<Seq<char>>) -> Option<MuxConfigView> {
    read_args(args, default_config())
}

/// Settings that their arguments give back: no empty skip patterns, a
/// depth that fits in a `usize`, a
/// verbosity that has its own argument or none, and targets with a path as
/// text and arguments none of which is `--target`.
pub open spec fn saves_back(c: MuxConfigView) -> bool {
    &&& c.skip != Some(Seq::<char>::empty())
    &&& c.down <= usize::MAX
    &&& c.verbosity != LevelFilter::Error
    &&& c.verbosity != LevelFilter::Warn
    &&& forall|i: int|
        0 <= i < c.targets.len() ==> {
            let t = #[trigger] c.targets[i];
            &&& t.0 is Some
            &&& t.1.len() > 0
            &&& forall|k: int| 0 <= k < t.1.len() ==> t.1[k] != "--target"@
        }
}

/// Arguments without `--target`, then a remainder that starts with one.
proof fn lemma_until_target(a: Seq<Seq<char>>, x: Seq<Seq<char>>)
    requires
        forall|k: int| 0 <= k < a.len() ==> a[k] != "--target"@,
        x.len() == 0 || x[0] == "--target"@,
    ensures
        until_target(a + x) == a.len(),
    decreases a.len(),
{
    if a.len() > 0 {
        assert((a + x)[0] == a[0]);
        assert((a + x).skip(1) =~= a.skip(1) + x);
        lemma_until_target(a.skip(1), x);
    } else {
        assert(a + x =~= x);
    }
}

/// The arguments of targets that have some start with `--target`.
proof fn lemma_targets_args_start(ts: Seq<(Option<Seq<char>>, Seq<Seq<char>>)>)
    ensures
        targets_json_args(ts).len() == 0 || targets_json_args(ts)[0] == "--target"@,
    decreases ts.len(),
{
    if ts.len() > 0 {
        lemma_targets_args_start(ts.drop_last());
    }
}

/// Reading the arguments of targets, then a remainder that starts with
/// `--target`, gives those targets back.
proof fn lemma_read_targets_concat(
    ts: Seq<(Option<Seq<char>>, Seq<Seq<char>>)>,
    x: Seq<Seq<char>>,
    acc: Seq<(Option<Seq<char>>, Seq<Seq<char>>)>,
)
    requires
        forall|i: int|
            0 <= i < ts.len() ==> {
                let t = #[trigger] ts[i];
                &&& t.0 is Some
                &&& t.1.len() > 0
                &&& forall|k: int| 0 <= k < t.1.len() ==> t.1[k] != "--target"@
            },
        x.len() == 0 || x[0] == "--target"@,
    ensures
        read_targets(targets_json_args(ts) + x, acc) == read_targets(x, acc + ts),
    decreases ts.len(),
{
    if ts.len() == 0 {
        assert(targets_json_args(ts) + x =~= x);
        assert(acc + ts =~= acc);
    } else {
        let p = ts.drop_last();
        let e = ts.last();
        assert(e == ts[ts.len() - 1]);
        let seg = seq!["--target"@, e.0->0] + e.1;
        assert(targets_json_args(ts) == targets_json_args(p) + seg);
        let x2 = seg + x;
        assert(x2[0] == "--target"@);
        assert forall|i: int| 0 <= i < p.len() implies {
            let t = #[trigger] p[i];
            &&& t.0 is Some
            &&& t.1.len() > 0
            &&& forall|k: int| 0 <= k < t.1.len() ==> t.1[k] != "--target"@
        } by {
            assert(p[i] == ts[i]);
        }
        lemma_read_targets_concat(p, x2, acc);
        assert(targets_json_args(ts) + x =~= targets_json_args(p) + x2);
        let rest = x2.skip(2);
        assert(rest =~= e.1 + x);
        lemma_until_target(e.1, x);
        assert(rest.take(e.1.len() as int) =~= e.1);
        assert(rest.skip(e.1.len() as int) =~= x);
        assert(x2[1] == e.0->0);
        assert((acc + p).push((Some(e.0->0), e.1)) =~= acc + ts);
    }
}

/// The option texts: their lengths and third characters, which tell them
/// apart.
proof fn lemma_option_texts()
    ensures
        "--input"@.len() == 7,
        "--input"@[2] == 'i',
        "--range"@.len() == 7,
        "--range"@[2] == 'r',
        "--skip"@.len() == 6,
        "--skip"@[2] == 's',
        "--down"@.len() == 6,
        "--down"@[2] == 'd',
        "--names"@.len() == 7,
        "--names"@[2] == 'n',
        "--langs"@.len() == 7,
        "--langs"@[2] == 'l',
        "--locale"@.len() == 8,
        "--locale"@[2] == 'l',
        "--quiet"@.len() == 7,
        "--quiet"@[2] == 'q',
        "-v"@.len() == 2,
        "-vv"@.len() == 3,
        "-vv"@[2] == 'v',
        "--no-config"@.len() == 11,
        "--no-config"@[2] == 'n',
        "--exit-on-err"@.len() == 13,
        "--exit-on-err"@[2] == 'e',
        "--target"@.len() == 8,
        "--target"@[2] == 't',
{
    reveal_strlit("--input");
    reveal_strlit("--range");
    reveal_strlit("--skip");
    reveal_strlit("--down");
    reveal_strlit("--names");
    reveal_strlit("--langs");
    reveal_strlit("--locale");
    reveal_strlit("--quiet");
    reveal_strlit("-v");
    reveal_strlit("-vv");
    reveal_strlit("--no-config");
    reveal_strlit("--exit-on-err");
    reveal_strlit("--target");
}

/// Reading an option with its value, or nothing.
proof fn lemma_read_opt(opt: Seq<char>, v: Option<Seq<char>>, r: Seq<Seq<char>>, acc: MuxConfigView)
    requires
        is_value_opt(opt),
    ensures
        read_args(opt_seg(opt, v) + r, acc) == read_args(
            r,
            match v {
                Some(x) => set_value(acc, opt, x),
                None => acc,
            },
        ),
{
    reveal(read_args);
    lemma_option_texts();
    let a = opt_seg(opt, v) + r;
    if let Some(x) = v {
        assert(a[0] == opt);
        assert(opt != "--target"@);
        assert(a[1] == x);
        assert(a.skip(2) =~= r);
    } else {
        assert(a =~= r);
    }
}

/// Reading `--locale` and a language's own code.
proof fn lemma_read_locale(l: LangCode, r: Seq<Seq<char>>, acc: MuxConfigView)
    ensures
        read_args(seq!["--locale"@, spec_code_str(l)] + r, acc) == read_args(
            r,
            MuxConfigView { locale: l, ..acc },
        ),
{
    reveal(read_args);
    lemma_option_texts();
    lemma_code_roundtrip(l);
    let a = seq!["--locale"@, spec_code_str(l)] + r;
    assert(a[0] == "--locale"@);
    assert(a[1] == spec_code_str(l));
    assert(a.skip(2) =~= r);
    assert(!is_value_opt(a[0]));
}

/// Reading the verbosity argument, when there is one.
proof fn lemma_read_verb(l: LevelFilter, r: Seq<Seq<char>>, acc: MuxConfigView)
    requires
        l != LevelFilter::Error,
        l != LevelFilter::Warn,
        acc.verbosity == LevelFilter::Info,
    ensures
        read_args(verb_seg(l) + r, acc) == read_args(r, MuxConfigView { verbosity: l, ..acc }),
{
    reveal(read_args);
    lemma_option_texts();
    let a = verb_seg(l) + r;
    if l == LevelFilter::Info {
        assert(a =~= r);
        assert(acc == MuxConfigView { verbosity: l, ..acc });
    } else {
        assert(a[0] == verb_seg(l)[0]);
        assert(a.skip(1) =~= r);
    }
}

/// Reading the depth, when it is not the default one.
proof fn lemma_read_down(d: nat, r: Seq<Seq<char>>, acc: MuxConfigView)
    requires
        d <= usize::MAX,
        acc.down == DEFAULT_DOWN as nat,
    ensures
        read_args(down_seg(d) + r, acc) == read_args(r, MuxConfigView { down: d, ..acc }),
{
    reveal(read_args);
    lemma_option_texts();
    let a = down_seg(d) + r;
    if d == DEFAULT_DOWN as nat {
        assert(a =~= r);
        assert(acc == MuxConfigView { down: d, ..acc });
    } else {
        lemma_decimal_parse(d);
        assert(a[0] == "--down"@);
        assert(a[1] == decimal(d));
        assert(a.skip(2) =~= r);
        assert(!is_value_opt(a[0]));
    }
}

/// Reading the `--no-config` switch, when it is on.
proof fn lemma_read_no_config(on: bool, r: Seq<Seq<char>>, acc: MuxConfigView)
    requires
        !acc.no_config,
    ensures
        read_args(flag_seg("--no-config"@, on) + r, acc) == read_args(
            r,
            MuxConfigView { no_config: on, ..acc },
        ),
{
    reveal(read_args);
    lemma_option_texts();
    let a = flag_seg("--no-config"@, on) + r;
    if on {
        assert(a[0] == "--no-config"@);
        assert(a.skip(1) =~= r);
    } else {
        assert(a =~= r);
        assert(acc == MuxConfigView { no_config: on, ..acc });
    }
}

/// Reading the `--exit-on-err` switch, when it is on.
proof fn lemma_read_exit_on_err(on: bool, r: Seq<Seq<char>>, acc: MuxConfigView)
    requires
        !acc.exit_on_err,
    ensures
        read_args(flag_seg("--exit-on-err"@, on) + r, acc) == read_args(
            r,
            MuxConfigView { exit_on_err: on, ..acc },
        ),
{
    reveal(read_args);
    lemma_option_texts();
    let a = flag_seg("--exit-on-err"@, on) + r;
    if on {
        assert(a[0] == "--exit-on-err"@);
        assert(a.skip(1) =~= r);
    } else {
        assert(a =~= r);
        assert(acc == MuxConfigView { exit_on_err: on, ..acc });
    }
}

/// Targets that have a path as text and arguments have some arguments.
proof fn lemma_targets_args_nonempty(ts: Seq<(Option<Seq<char>>, Seq<Seq<char>>)>)
    requires
        ts.len() > 0,
        ts.last().0 is Some,
        ts.last().1.len() > 0,
    ensures
        targets_json_args(ts).len() > 0,
{
    let p = targets_json_args(ts.drop_last());
    assert(targets_json_args(ts) == p + seq!["--target"@, ts.last().0->0] + ts.last().1);
}

/// Reading the arguments of the targets gives them back.
proof fn lemma_read_targets_all(ts: Seq<(Option<Seq<char>>, Seq<Seq<char>>)>, acc: MuxConfigView)
    requires
        acc.targets == Seq::<(Option<Seq<char>>, Seq<Seq<char>>)>::empty(),
        forall|i: int|
            0 <= i < ts.len() ==> {
                let t = #[trigger] ts[i];
                &&& t.0 is Some
                &&& t.1.len() > 0
                &&& forall|k: int| 0 <= k < t.1.len() ==> t.1[k] != "--target"@
            },
    ensures
        read_args(targets_json_args(ts), acc) == Some(MuxConfigView { targets: ts, ..acc }),
{
    reveal(read_args);
    let t = targets_json_args(ts);
    if ts.len() == 0 {
        assert(ts =~= Seq::<(Option<Seq<char>>, Seq<Seq<char>>)>::empty());
        assert(acc == MuxConfigView { targets: ts, ..acc });
    } else {
        assert(ts.last() == ts[ts.len() - 1]);
        lemma_targets_args_nonempty(ts);
        lemma_targets_args_start(ts);
        lemma_read_targets_concat(ts, seq![], seq![]);
        assert(t + Seq::<Seq<char>>::empty() =~= t);
        assert(Seq::<(Option<Seq<char>>, Seq<Seq<char>>)>::empty() + ts =~= ts);
        assert(read_targets(t, seq![]) == Some(ts));
    }
}

/// What setting each value option changes.
proof fn lemma_set_value()
    ensures
        forall|acc: MuxConfigView, x: Seq<char>|
            #[trigger] set_value(acc, "--input"@, x) == (MuxConfigView { input: Some(x), ..acc }),
        forall|acc: MuxConfigView, x: Seq<char>|
            #[trigger] set_value(acc, "--range"@, x) == (MuxConfigView { range: Some(x), ..acc }),
        forall|acc: MuxConfigView, x: Seq<char>|
            #[trigger] set_value(acc, "--skip"@, x) == (MuxConfigView { skip: Some(x), ..acc }),
        forall|acc: MuxConfigView, x: Seq<char>|
            #[trigger] set_value(acc, "--names"@, x) == (MuxConfigView { names: Some(x), ..acc }),
        forall|acc: MuxConfigView, x: Seq<char>|
            #[trigger] set_value(acc, "--langs"@, x) == (MuxConfigView { langs: Some(x), ..acc }),
{
    lemma_option_texts();
}

/// Ten pieces and a tail, joined from the left or from the right.
proof fn lemma_join_right(
    x1: Seq<Seq<char>>,
    x2: Seq<Seq<char>>,
    x3: Seq<Seq<char>>,
    x4: Seq<Seq<char>>,
    x5: Seq<Seq<char>>,
    x6: Seq<Seq<char>>,
    x7: Seq<Seq<char>>,
    x8: Seq<Seq<char>>,
    x9: Seq<Seq<char>>,
    x10: Seq<Seq<char>>,
    t: Seq<Seq<char>>,
)
    ensures
        x1 + x2 + x3 + x4 + x5 + x6 + x7 + x8 + x9 + x10 + t == x1 + (x2 + (x3 + (x4 + (x5 + (x6 + (x7 + (x8 + (x9 + (x10 + t))))))))),
{
    let r9 = x10 + t;
    let r8 = x9 + r9;
    let r7 = x8 + r8;
    let r6 = x7 + r7;
    let r5 = x6 + r6;
    let r4 = x5 + r5;
    let r3 = x4 + r4;
    let r2 = x3 + r3;
    let r1 = x2 + r2;
    let q1 = x1;
    let q2 = q1 + x2;
    let q3 = q2 + x3;
    let q4 = q3 + x4;
    let q5 = q4 + x5;
    let q6 = q5 + x6;
    let q7 = q6 + x7;
    let q8 = q7 + x8;
    let q9 = q8 + x9;
    let q10 = q9 + x10;
    assert(q10 + t =~= q9 + r9);
    assert(q9 + r9 =~= q8 + r8);
    assert(q8 + r8 =~= q7 + r7);
    assert(q7 + r7 =~= q6 + r6);
    assert(q6 + r6 =~= q5 + r5);
    assert(q5 + r5 =~= q4 + r4);
    assert(q4 + r4 =~= q3 + r3);
    assert(q3 + r3 =~= q2 + r2);
    assert(q2 + r2 =~= q1 + r1);
}

/// Law: the arguments that save settings are read back as the same
/// settings, for every verbosity that has its own argument (or none) and
/// targets that have a path as text and arguments none of which is
/// `--target`.
pub proof fn lemma_json_args_read_back(c: MuxConfigView)
    requires
        saves_back(c),
    ensures
        spec_read_config(spec_json_args(c)) == Some(c),
{
    let t = targets_json_args(c.targets);
    let s10 = opt_seg("--langs"@, c.langs) + t;
    let s9 = opt_seg("--names"@, c.names) + s10;
    let s8 = flag_seg("--exit-on-err"@, c.exit_on_err) + s9;
    let s7 = flag_seg("--no-config"@, c.no_config) + s8;
    let s6 = verb_seg(c.verbosity) + s7;
    let s5 = seq!["--locale"@, spec_code_str(c.locale)] + s6;
    let s4 = down_seg(c.down) + s5;
    let s3 = opt_seg("--skip"@, nonempty_text(c.skip)) + s4;
    assert(nonempty_text(c.skip) == c.skip) by {
        if let Some(x) = c.skip {
            if x.len() == 0 {
                assert(x =~= Seq::<char>::empty());
            }
        }
    }
    let s2 = opt_seg("--range"@, c.range) + s3;
    lemma_join_right(
        opt_seg("--input"@, c.input),
        opt_seg("--range"@, c.range),
        opt_seg("--skip"@, nonempty_text(c.skip)),
        down_seg(c.down),
        seq!["--locale"@, spec_code_str(c.locale)],
        verb_seg(c.verbosity),
        flag_seg("--no-config"@, c.no_config),
        flag_seg("--exit-on-err"@, c.exit_on_err),
        opt_seg("--names"@, c.names),
        opt_seg("--langs"@, c.langs),
        t,
    );
    let d = default_config();
    lemma_set_value();
    let a1 = MuxConfigView { input: c.input, ..d };
    lemma_read_opt("--input"@, c.input, s2, d);
    let a2 = MuxConfigView { range: c.range, ..a1 };
    lemma_read_opt("--range"@, c.range, s3, a1);
    let a3 = MuxConfigView { skip: c.skip, ..a2 };
    lemma_read_opt("--skip"@, c.skip, s4, a2);
    let a4 = MuxConfigView { down: c.down, ..a3 };
    lemma_read_down(c.down, s5, a3);
    let a5 = MuxConfigView { locale: c.locale, ..a4 };
    lemma_read_locale(c.locale, s6, a4);
    let a6 = MuxConfigView { verbosity: c.verbosity, ..a5 };
    lemma_read_verb(c.verbosity, s7, a5);
    let a7 = MuxConfigView { no_config: c.no_config, ..a6 };
    lemma_read_no_config(c.no_config, s8, a6);
    let a8 = MuxConfigView { exit_on_err: c.exit_on_err, ..a7 };
    lemma_read_exit_on_err(c.exit_on_err, s9, a7);
    let a9 = MuxConfigView { names: c.names, ..a8 };
    lemma_read_opt("--names"@, c.names, s10, a8);
    let a10 = MuxConfigView { langs: c.langs, ..a9 };
    lemma_read_opt("--langs"@, c.langs, t, a9);
    lemma_read_targets_all(c.targets, a10);
    assert(MuxConfigView { targets: c.targets, ..a10 } == c);
}

impl MuxConfig {
    /// The arguments that save the settings (see [`spec_json_args`]).
    pub fn to_json_args(&self) -> (r: Vec<String>)
        ensures
            string_views(r@) == spec_json_args(self@),
    {
        let mut args: Vec<String> = Vec::new();
        let ghost c = self@;
        push_opt(&mut args, "--input", &self.input);
        push_opt(&mut args, "--range", &self.range);
        match &self.skip {
            Some(x) => {
                if crate::text::chars_of(x.as_str()).len() > 0 {
                    push_opt(&mut args, "--skip", &self.skip);
                }
            },
            None => {},
        }
        if self.down != DEFAULT_DOWN {
            let ghost before = string_views(args@);
            args.push(String::from_str("--down"));
            args.push(decimal_text(self.down));
            assert(string_views(args@) =~= before + down_seg(self.down as nat));
        } else {
            assert(string_views(args@) =~= string_views(args@) + down_seg(self.down as nat));
        }
        let ghost before = string_views(args@);
        args.push(String::from_str("--locale"));
        args.push(self.locale.to_code_string());
        assert(string_views(args@) =~= before + seq!["--locale"@, spec_code_str(c.locale)]);
        let ghost b2 = string_views(args@);
        self.verbosity.append_json_args(&mut args);
        assert(string_views(args@) =~= b2 + verb_seg(c.verbosity)) by {
            if self.verbosity.spec_json_arg() is Some {
                assert(args@ =~= args@.take(args@.len() - 1).push(args@.last()));
            }
        }
        push_flag(&mut args, "--no-config", self.no_config);
        push_flag(&mut args, "--exit-on-err", self.exit_on_err);
        push_opt(&mut args, "--names", &self.names);
        push_opt(&mut args, "--langs", &self.langs);
        let ghost b3 = string_views(args@);
        assert(b3 =~= global_json_args(c));
        append_targets_json_args(&mut args, &self.targets);
        args
    }
}

/// Appends `opt` and the value, when there is one.
fn push_opt(args: &mut Vec<String>, opt: &str, v: &Option<String>)
    ensures
        string_views(final(args)@) == string_views(old(args)@) + opt_seg(opt@, opt_text(*v)),
{
    let ghost before = string_views(args@);
    match v {
        Some(x) => {
            args.push(String::from_str(opt));
            args.push(x.clone());
            assert(string_views(args@) =~= before + seq![opt@, x@]);
        },
        None => {
            assert(string_views(args@) =~= before + Seq::<Seq<char>>::empty());
        },
    }
}

/// Appends `opt` when the switch is on.
fn push_flag(args: &mut Vec<String>, opt: &str, on: bool)
    ensures
        string_views(final(args)@) == string_views(old(args)@) + flag_seg(opt@, on),
{
    let ghost before = string_views(args@);
    if on {
        args.push(String::from_str(opt));
        assert(string_views(args@) =~= before + seq![opt@]);
    } else {
        assert(string_views(args@) =~= before + Seq::<Seq<char>>::empty());
    }
}

} // verus!
