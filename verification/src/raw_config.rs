//! The first pass over the command line: the locale, the list requests, a
//! call of an external tool, and the split of arguments between the global
//! settings and the targets.
use vstd::prelude::*;
use crate::error::MuxError;
use crate::lang::spec_get_code;
use crate::lang_table::LangCode;
use crate::metadata::key_index;
use crate::text::string_views;

verus! {

/// An external tool whose command line can be handed over.
#[derive(Clone, Copy, Debug, PartialEq, Eq, Structural)]
pub enum Tool {
    Ffprobe,
    Mkvextract,
    Mkvinfo,
    Mkvmerge,
}

/// The name of a tool.
pub open spec fn tool_name(t: Tool) -> Seq<char> {
    match t {
        Tool::Ffprobe => "ffprobe"@,
        Tool::Mkvextract => "mkvextract"@,
        Tool::Mkvinfo => "mkvinfo"@,
        Tool::Mkvmerge => "mkvmerge"@,
    }
}

/// The tool called by an argument `--<tool>`.
pub open spec fn tool_of_arg(a: Seq<char>) -> Option<Tool> {
    if a.len() >= 2 && a[0] == '-' && a[1] == '-' {
        let t = a.skip(2);
        if t == tool_name(Tool::Ffprobe) {
            Some(Tool::Ffprobe)
        } else if t == tool_name(Tool::Mkvextract) {
            Some(Tool::Mkvextract)
        } else if t == tool_name(Tool::Mkvinfo) {
            Some(Tool::Mkvinfo)
        } else if t == tool_name(Tool::Mkvmerge) {
            Some(Tool::Mkvmerge)
        } else {
            None
        }
    } else {
        None
    }
}

impl Tool {
    /// The name of the tool.
    pub fn as_str(self) -> (r: &'static str)
        ensures
            r@ == tool_name(self),
    {
        match self {
            Tool::Ffprobe => "ffprobe",
            Tool::Mkvextract => "mkvextract",
            Tool::Mkvinfo => "mkvinfo",
            Tool::Mkvmerge => "mkvmerge",
        }
    }
}

/// The abstract value of a [`RawMuxConfig`].
pub struct RawView {
    pub locale: Option<LangCode>,
    pub list_langs: bool,
    pub list_targets: bool,
    pub call_tool: Option<(Tool, Seq<Seq<char>>)>,
    pub args: Seq<Seq<char>>,
    pub trg_args: Option<Seq<(Seq<char>, Seq<Seq<char>>)>>,
}

/// Appends `a` to the arguments of target `k`, creating its entry.
pub open spec fn assoc_push(
    m: Seq<(Seq<char>, Seq<Seq<char>>)>,
    k: Seq<char>,
    a: Seq<char>,
) -> Seq<(Seq<char>, Seq<Seq<char>>)> {
    match key_index(m, k) {
        Some(j) => m.update(j, (k, m[j].1.push(a))),
        None => m.push((k, seq![a])),
    }
}

/// The message when `--locale` has no value.
pub open spec fn locale_missing_msg() -> Seq<char> {
    "a value is required for '--locale <lng>' but none was supplied"@
}

/// The message when the value of `--locale` names no language.
pub open spec fn locale_invalid_msg() -> Seq<char> {
    "Not found a valid language code"@
}

/// How the target written as `t` resolves: the first entry for `t` in
/// `res`, the key of the target or the message of why it names none;
/// `None` when `res` has no entry for `t`.
pub open spec fn target_key(
    res: Seq<(Seq<char>, Result<Seq<char>, Seq<char>>)>,
    t: Seq<char>,
) -> Option<Result<Seq<char>, Seq<char>>>
    decreases res.len(),
{
    if res.len() == 0 {
        None
    } else if res[0].0 == t {
        Some(res[0].1)
    } else {
        target_key(res.drop_first(), t)
    }
}

/// The key of the target written as `t`: as `res` resolves it, else its
/// text.
pub open spec fn resolved_key(res: Seq<(Seq<char>, Result<Seq<char>, Seq<char>>)>, t: Seq<char>) -> Seq<char> {
    match target_key(res, t) {
        Some(Ok(k)) => k,
        _ => t,
    }
}

/// The arguments from index `i` on, read into `st` while `target` is the
/// current target (`None` for the global settings).
///
/// - `--locale <lng>`: the locale, kept among the global arguments too;
/// - `--list-langs`, `--list-languages`, `--list-targets`: list requests;
/// - `--<tool>`: the tool and all arguments after it; reading stops;
/// - `--target <trg>`: the current target (`global` or `g` for none), keyed
///   as `res` resolves it (by its text where `res` does not), or the
///   message of why it names no target;
/// - any other argument: to the current target, or to the global arguments.
pub open spec fn raw_from(
    args: Seq<Seq<char>>,
    res: Seq<(Seq<char>, Result<Seq<char>, Seq<char>>)>,
    i: int,
    st: RawView,
    target: Option<Seq<char>>,
) -> Result<RawView, Seq<char>>
    decreases args.len() - i,
{
    if i < 0 || i >= args.len() {
        Ok(st)
    } else {
        let a = args[i];
        if a == "--locale"@ {
            if i + 1 >= args.len() {
                Err(locale_missing_msg())
            } else {
                match spec_get_code(args[i + 1]) {
                    None => Err(locale_invalid_msg()),
                    Some(c) => raw_from(
                        args,
                        res,
                        i + 2,
                        RawView { locale: Some(c), args: st.args.push(a).push(args[i + 1]), ..st },
                        target,
                    ),
                }
            }
        } else if a == "--list-langs"@ || a == "--list-languages"@ {
            raw_from(args, res, i + 1, RawView { list_langs: true, ..st }, target)
        } else if a == "--list-targets"@ {
            raw_from(args, res, i + 1, RawView { list_targets: true, ..st }, target)
        } else if tool_of_arg(a) is Some {
            Ok(RawView { call_tool: Some((tool_of_arg(a)->0, args.skip(i + 1))), ..st })
        } else if a == "--target"@ {
            if i + 1 >= args.len() {
                raw_from(args, res, i + 1, st, target)
            } else {
                let t = args[i + 1];
                if t == "global"@ || t == "g"@ {
                    raw_from(args, res, i + 2, st, None)
                } else {
                    match target_key(res, t) {
                        Some(Err(msg)) => Err(msg),
                        Some(Ok(k)) => raw_from(args, res, i + 2, st, Some(k)),
                        None => raw_from(args, res, i + 2, st, Some(t)),
                    }
                }
            }
        } else {
            match target {
                Some(t) => {
                    let m = match st.trg_args {
                        Some(m) => m,
                        None => seq![],
                    };
                    raw_from(
                        args,
                        res,
                        i + 1,
                        RawView { trg_args: Some(assoc_push(m, t, a)), ..st },
                        target,
                    )
                },
                None => raw_from(args, res, i + 1, RawView { args: st.args.push(a), ..st }, target),
            }
        }
    }
}

/// The reading of a whole command line, with targets resolved by `res`.
pub open spec fn spec_raw_config(
    args: Seq<Seq<char>>,
    res: Seq<(Seq<char>, Result<Seq<char>, Seq<char>>)>,
) -> Result<RawView, Seq<char>> {
    raw_from(
        args,
        res,
        0,
        RawView {
            locale: None,
            list_langs: false,
            list_targets: false,
            call_tool: None,
            args: seq![],
            trg_args: None,
        },
        None,
    )
}

/// An argument that the first pass leaves to the settings parser.
pub open spec fn is_plain_arg(a: Seq<char>) -> bool {
    &&& a != "--locale"@
    &&& a != "--list-langs"@
    &&& a != "--list-languages"@
    &&& a != "--list-targets"@
    &&& tool_of_arg(a) is None
    &&& a != "--target"@
}

/// Plain arguments from index `i` on are appended to the global arguments.
proof fn lemma_plain_from(args: Seq<Seq<char>>, res: Seq<(Seq<char>, Result<Seq<char>, Seq<char>>)>, i: int, st: RawView)
    requires
        0 <= i <= args.len(),
        forall|k: int| 0 <= k < args.len() ==> is_plain_arg(#[trigger] args[k]),
    ensures
        raw_from(args, res, i, st, None) == Ok::<RawView, Seq<char>>(
            RawView { args: st.args + args.skip(i), ..st },
        ),
    decreases args.len() - i,
{
    if i == args.len() {
        assert(st.args + args.skip(i) =~= st.args);
    } else {
        assert(is_plain_arg(args[i]));
        let st2 = RawView { args: st.args.push(args[i]), ..st };
        lemma_plain_from(args, res, i + 1, st2);
        assert(st2.args + args.skip(i + 1) =~= st.args + args.skip(i));
    }
}

/// Law: a command line of plain arguments only is read as no locale, no
/// list request, no tool call, no target arguments, and all its arguments,
/// in order, for the global settings, however targets resolve.
pub proof fn lemma_plain_args_pass_through(args: Seq<Seq<char>>, res: Seq<(Seq<char>, Result<Seq<char>, Seq<char>>)>)
    requires
        forall|k: int| 0 <= k < args.len() ==> is_plain_arg(#[trigger] args[k]),
    ensures
        spec_raw_config(args, res) == Ok::<RawView, Seq<char>>(
            RawView {
                locale: None,
                list_langs: false,
                list_targets: false,
                call_tool: None,
                args: args,
                trg_args: None,
            },
        ),
{
    let st = RawView {
        locale: None,
        list_langs: false,
        list_targets: false,
        call_tool: None,
        args: seq![],
        trg_args: None,
    };
    lemma_plain_from(args, res, 0, st);
    assert(st.args + args.skip(0) =~= args);
}

/// The initial state of the first pass.
pub open spec fn raw_init() -> RawView {
    RawView {
        locale: None,
        list_langs: false,
        list_targets: false,
        call_tool: None,
        args: seq![],
        trg_args: None,
    }
}

/// Plain arguments from index `i` on are appended to the arguments of the
/// only target `t`.
proof fn lemma_target_from(
    args: Seq<Seq<char>>,
    res: Seq<(Seq<char>, Result<Seq<char>, Seq<char>>)>,
    i: int,
    t: Seq<char>,
    m: Seq<Seq<char>>,
)
    requires
        0 <= i <= args.len(),
        forall|k: int| i <= k < args.len() ==> is_plain_arg(#[trigger] args[k]),
    ensures
        raw_from(args, res, i, RawView { trg_args: Some(seq![(t, m)]), ..raw_init() }, Some(t)) == Ok::<
            RawView,
            Seq<char>,
        >(RawView { trg_args: Some(seq![(t, m + args.skip(i))]), ..raw_init() }),
    decreases args.len() - i,
{
    if i == args.len() {
        assert(m + args.skip(i) =~= m);
    } else {
        assert(is_plain_arg(args[i]));
        let one = seq![(t, m)];
        assert(one.drop_last() =~= Seq::<(Seq<char>, Seq<Seq<char>>)>::empty());
        assert(key_index(one.drop_last(), t) is None);
        assert(key_index(one, t) == Some(0int));
        assert(assoc_push(one, t, args[i]) =~= seq![(t, m.push(args[i]))]);
        lemma_target_from(args, res, i + 1, t, m.push(args[i]));
        assert(m.push(args[i]) + args.skip(i + 1) =~= m + args.skip(i));
    }
}

/// `--target` is none of the other words of the first pass.
proof fn lemma_target_word()
    ensures
        "--target"@ != "--locale"@,
        "--target"@ != "--list-langs"@,
        "--target"@ != "--list-languages"@,
        "--target"@ != "--list-targets"@,
        tool_of_arg("--target"@) is None,
{
    reveal_strlit("--target");
    reveal_strlit("--locale");
    reveal_strlit("--list-langs");
    reveal_strlit("--list-languages");
    reveal_strlit("--list-targets");
    reveal_strlit("ffprobe");
    reveal_strlit("mkvextract");
    reveal_strlit("mkvinfo");
    reveal_strlit("mkvmerge");
    assert("--target"@[2] != "--locale"@[2]);
    assert("--target"@ != "--locale"@);
    assert("--target"@ != "--list-langs"@);
    assert("--target"@ != "--list-languages"@);
    assert("--target"@ != "--list-targets"@);
    let tail = "--target"@.skip(2);
    assert(tail =~= "target"@) by {
        reveal_strlit("target");
    }
    assert(tail.len() == 6);
    assert(tail != tool_name(Tool::Ffprobe));
    assert(tail != tool_name(Tool::Mkvextract));
    assert(tail != tool_name(Tool::Mkvinfo));
    assert(tail != tool_name(Tool::Mkvmerge));
    assert(tool_of_arg("--target"@) is None);
}

/// Law: on a command line `--target <a> x --target <b> y` whose two targets
/// are written differently or alike but resolve to one key, both arguments
/// belong to that one target, in order.
pub proof fn lemma_targets_gather_by_key(
    a: Seq<char>,
    b: Seq<char>,
    x: Seq<char>,
    y: Seq<char>,
    res: Seq<(Seq<char>, Result<Seq<char>, Seq<char>>)>,
)
    requires
        !(target_key(res, a) matches Some(Err(_))),
        !(target_key(res, b) matches Some(Err(_))),
        a != "global"@ && a != "g"@,
        b != "global"@ && b != "g"@,
        resolved_key(res, a) == resolved_key(res, b),
        is_plain_arg(x),
        is_plain_arg(y),
    ensures
        spec_raw_config(seq!["--target"@, a, x, "--target"@, b, y], res) == Ok::<RawView, Seq<char>>(
            RawView { trg_args: Some(seq![(resolved_key(res, a), seq![x, y])]), ..raw_init() },
        ),
{
    lemma_target_word();
    let args = seq!["--target"@, a, x, "--target"@, b, y];
    let k = resolved_key(res, a);
    let one = seq![(k, seq![x])];
    let two = seq![(k, seq![x, y])];
    assert(assoc_push(seq![], k, x) =~= one);
    assert(one.drop_last() =~= Seq::<(Seq<char>, Seq<Seq<char>>)>::empty());
    assert(key_index(one.drop_last(), k) is None);
    assert(key_index(one, k) == Some(0int));
    assert(seq![x].push(y) =~= seq![x, y]);
    assert(assoc_push(one, k, y) =~= two);
    let st1 = RawView { trg_args: Some(one), ..raw_init() };
    let st2 = RawView { trg_args: Some(two), ..raw_init() };
    assert(raw_from(args, res, 6, st2, Some(k)) == Ok::<RawView, Seq<char>>(st2));
    assert(raw_from(args, res, 5, st1, Some(k)) == raw_from(args, res, 6, st2, Some(k)));
    assert(raw_from(args, res, 3, st1, Some(k)) == raw_from(args, res, 5, st1, Some(k)));
    assert(raw_from(args, res, 2, raw_init(), Some(k)) == raw_from(args, res, 3, st1, Some(k)));
    assert(raw_from(args, res, 0, raw_init(), None) == raw_from(args, res, 2, raw_init(), Some(k)));
}

/// Law: on a command line `--target <trg> a...` whose target is not the
/// global one and resolves, and whose further arguments are plain and not
/// none, all those arguments belong to that target, under its key, in
/// order, and none to the global settings.
pub proof fn lemma_target_args(t: Seq<char>, ps: Seq<Seq<char>>, res: Seq<(Seq<char>, Result<Seq<char>, Seq<char>>)>)
    requires
        !(target_key(res, t) matches Some(Err(_))),
        t != "global"@,
        t != "g"@,
        ps.len() > 0,
        forall|k: int| 0 <= k < ps.len() ==> is_plain_arg(#[trigger] ps[k]),
    ensures
        spec_raw_config(seq!["--target"@, t] + ps, res) == Ok::<RawView, Seq<char>>(
            RawView { trg_args: Some(seq![(resolved_key(res, t), ps)]), ..raw_init() },
        ),
{
    let args = seq!["--target"@, t] + ps;
    let k = resolved_key(res, t);
    lemma_target_word();
    assert(args[0] == "--target"@);
    assert(args[1] == t);
    assert(args.len() >= 3);
    assert forall|k: int| 2 <= k < args.len() implies is_plain_arg(#[trigger] args[k]) by {
        assert(args[k] == ps[k - 2]);
    }
    assert(args[2] == ps[0]);
    assert(is_plain_arg(args[2]));
    assert(assoc_push(seq![], k, args[2]) =~= seq![(k, seq![args[2]])]);
    lemma_target_from(args, res, 3, k, seq![args[2]]);
    assert(seq![args[2]] + args.skip(3) =~= ps);
    assert(spec_raw_config(args, res) == raw_from(args, res, 0, raw_init(), None));
    assert(raw_from(args, res, 0, raw_init(), None) == raw_from(args, res, 2, raw_init(), Some(k)));
    assert(raw_from(args, res, 2, raw_init(), Some(k)) == raw_from(
        args,
        res,
        3,
        RawView { trg_args: Some(seq![(k, seq![args[2]])]), ..raw_init() },
        Some(k),
    ));
}

/// Contains raw user-defined mux settings: what the first pass over the
/// command line found, with the arguments left for the global settings and
/// for each target (by the key that the target resolves to).
#[derive(Debug)]
pub struct RawMuxConfig {
    pub locale: Option<LangCode>,
    pub list_langs: bool,
    pub list_targets: bool,
    pub call_tool: Option<(Tool, Vec<String>)>,
    pub args: Vec<String>,
    pub trg_args: Option<Vec<(String, Vec<String>)>>,
}

/// The view of the arguments of the targets.
pub open spec fn trg_view(m: Seq<(String, Vec<String>)>) -> Seq<(Seq<char>, Seq<Seq<char>>)> {
    m.map_values(|e: (String, Vec<String>)| (e.0@, string_views(e.1@)))
}

impl View for RawMuxConfig {
    type V = RawView;

    open spec fn view(&self) -> RawView {
        RawView {
            locale: self.locale,
            list_langs: self.list_langs,
            list_targets: self.list_targets,
            call_tool: match &self.call_tool {
                Some((t, v)) => Some((*t, string_views(v@))),
                None => None,
            },
            args: string_views(self.args@),
            trg_args: match &self.trg_args {
                Some(m) => Some(trg_view(m@)),
                None => None,
            },
        }
    }
}

/// `a` is the text `lit`.
fn is_text(a: &String, lit: &str) -> (r: bool)
    ensures
        r == (a@ == lit@),
{
    let l = String::from_str(lit);
    *a == l
}

/// The tool called by an argument `--<tool>`, if any.
fn tool_of(a: &String) -> (r: Option<Tool>)
    ensures
        r == tool_of_arg(a@),
{
    let cs = crate::text::chars_of(a.as_str());
    if cs.len() < 2 || cs[0] != '-' || cs[1] != '-' {
        return None;
    }
    let tail = crate::text::string_of(&crate::strs::sub_chars(&cs, 2, cs.len()));
    assert(tail@ == a@.skip(2));
    if is_text(&tail, "ffprobe") {
        Some(Tool::Ffprobe)
    } else if is_text(&tail, "mkvextract") {
        Some(Tool::Mkvextract)
    } else if is_text(&tail, "mkvinfo") {
        Some(Tool::Mkvinfo)
    } else if is_text(&tail, "mkvmerge") {
        Some(Tool::Mkvmerge)
    } else {
        None
    }
}

/// Copies of the arguments from index `from` on.
fn clone_from(args: &Vec<String>, from: usize) -> (r: Vec<String>)
    requires
        from <= args.len(),
    ensures
        string_views(r@) == string_views(args@).skip(from as int),
{
    let mut out: Vec<String> = Vec::new();
    let mut i: usize = from;
    while i < args.len()
        invariant
            from <= i <= args.len(),
            string_views(out@) == string_views(args@).subrange(from as int, i as int),
        decreases args.len() - i,
    {
        let ghost before = out@;
        out.push(args[i].clone());
        assert(string_views(out@) =~= string_views(before).push(args@[i as int]@));
        assert(string_views(args@).subrange(from as int, i + 1) =~= string_views(args@).subrange(
            from as int,
            i as int,
        ).push(args@[i as int]@));
        i = i + 1;
    }
    assert(string_views(args@).subrange(from as int, args.len() as int) =~= string_views(args@).skip(
        from as int,
    ));
    out
}

/// Appends `a` to the arguments of target `k`.
fn push_target_arg(m: &mut Vec<(String, Vec<String>)>, k: &String, a: String)
    ensures
        trg_view(final(m)@) == assoc_push(trg_view(old(m)@), k@, a@),
{
    let ghost mv = trg_view(m@);
    let mut j: usize = 0;
    while j < m.len()
        invariant
            mv == trg_view(m@),
            m@ == old(m)@,
            j <= m.len(),
            key_index(mv.take(j as int), k@) is None,
        decreases m.len() - j,
    {
        assert(mv.take(j + 1).drop_last() =~= mv.take(j as int));
        assert(mv.take(j + 1).last() == mv[j as int]);
        if m[j].0 == *k {
            assert(key_index(mv.take(j + 1), k@) == Some(j as int));
            proof {
                crate::metadata::lemma_key_index_prefix(mv, j as int + 1, k@);
            }
            let ghost om = m@;
            let mut entry = m.remove(j);
            assert(entry == om[j as int]);
            let ghost ev = entry.1@;
            entry.1.push(a);
            assert(string_views(entry.1@) =~= string_views(ev).push(a@));
            let ghost ne = entry;
            m.insert(j, entry);
            assert(m@ =~= om.update(j as int, ne));
            assert(trg_view(m@) =~= mv.update(j as int, (k@, mv[j as int].1.push(a@))));
            return;
        }
        j = j + 1;
    }
    assert(mv.take(m.len() as int) =~= mv);
    let ghost before = m@;
    let mut v: Vec<String> = Vec::new();
    v.push(a);
    m.push((k.clone(), v));
    assert(string_views(v@) =~= seq![a@]);
    assert(trg_view(m@) =~= trg_view(before).push((k@, seq![a@])));
}

/// The view of a table of resolved targets.
pub open spec fn resolved_view(v: Seq<(String, Result<String, String>)>) -> Seq<(Seq<char>, Result<Seq<char>, Seq<char>>)> {
    v.map_values(
        |e: (String, Result<String, String>)|
            (
                e.0@,
                match e.1 {
                    Ok(k) => Ok(k@),
                    Err(m) => Err(m@),
                },
            ),
    )
}

/// The entry of the table for the target written as `t`.
fn resolve_target(targets: &Vec<(String, Result<String, String>)>, t: &String) -> (r: Option<
    Result<String, String>,
>)
    ensures
        match target_key(resolved_view(targets@), t@) {
            None => r is None,
            Some(Ok(k)) => r matches Some(Ok(x)) && x@ == k,
            Some(Err(m)) => r matches Some(Err(x)) && x@ == m,
        },
{
    let ghost rv = resolved_view(targets@);
    let mut j: usize = 0;
    assert(rv.skip(0) =~= rv);
    while j < targets.len()
        invariant
            rv == resolved_view(targets@),
            j <= targets.len(),
            target_key(rv, t@) == target_key(rv.skip(j as int), t@),
        decreases targets.len() - j,
    {
        assert(rv.skip(j as int)[0] == rv[j as int]);
        assert(rv.skip(j as int).drop_first() =~= rv.skip(j + 1));
        if targets[j].0 == *t {
            let r = match &targets[j].1 {
                Ok(k) => Ok(k.clone()),
                Err(m) => Err(m.clone()),
            };
            return Some(r);
        }
        j = j + 1;
    }
    assert(rv.skip(j as int) =~= Seq::<(Seq<char>, Result<Seq<char>, Seq<char>>)>::empty());
    None
}

impl RawMuxConfig {
    /// Reads the command line once, before the settings are parsed; each
    /// target is keyed as `targets` resolves its text (by the text itself
    /// where `targets` has no entry for it).
    ///
    /// # Errors
    ///
    /// When `--locale` has no value or its value names no language, or when
    /// `targets` resolves a target to an error.
    pub fn try_from_args(
        input_args: Vec<String>,
        targets: &Vec<(String, Result<String, String>)>,
    ) -> (r: Result<RawMuxConfig, MuxError>)
        ensures
            match spec_raw_config(string_views(input_args@), resolved_view(targets@)) {
                Ok(v) => r matches Ok(c) && c@ == v,
                Err(msg) => r matches Err(e) && e.has_message(msg),
            },
    {
        let ghost av = string_views(input_args@);
        let ghost rv = resolved_view(targets@);
        let mut locale: Option<LangCode> = None;
        let mut list_langs = false;
        let mut list_targets = false;
        let mut call_tool: Option<(Tool, Vec<String>)> = None;
        let mut args: Vec<String> = Vec::new();
        let mut trg_args: Option<Vec<(String, Vec<String>)>> = None;
        let mut target: Option<String> = None;
        let mut i: usize = 0;
        assert(string_views(args@) =~= Seq::<Seq<char>>::empty());
        while i < input_args.len()
            invariant_except_break
                av == string_views(input_args@),
                rv == resolved_view(targets@),
                i <= input_args.len(),
                call_tool is None,
                raw_from(
                    av,
                    rv,
                    i as int,
                    RawView {
                        locale,
                        list_langs,
                        list_targets,
                        call_tool: None,
                        args: string_views(args@),
                        trg_args: match &trg_args {
                            Some(m) => Some(trg_view(m@)),
                            None => None,
                        },
                    },
                    match &target {
                        Some(t) => Some(t@),
                        None => None,
                    },
                ) == spec_raw_config(av, rv),
            ensures
                av == string_views(input_args@),
                raw_from(
                    av,
                    rv,
                    input_args.len() as int,
                    RawView {
                        locale,
                        list_langs,
                        list_targets,
                        call_tool: match &call_tool {
                            Some((t, v)) => Some((*t, string_views(v@))),
                            None => None,
                        },
                        args: string_views(args@),
                        trg_args: match &trg_args {
                            Some(m) => Some(trg_view(m@)),
                            None => None,
                        },
                    },
                    None,
                ) == spec_raw_config(av, rv),
            decreases input_args.len() - i,
        {
            let arg = input_args[i].clone();
            assert(arg@ == av[i as int]);
            if is_text(&arg, "--locale") {
                if i + 1 >= input_args.len() {
                    return Err(MuxError::from_str_msg(
                        "a value is required for '--locale <lng>' but none was supplied",
                    ));
                }
                let next_arg = input_args[i + 1].clone();
                assert(next_arg@ == av[i + 1]);
                match LangCode::from_str(next_arg.as_str()) {
                    Ok(c) => {
                        locale = Some(c);
                        let ghost before = string_views(args@);
                        args.push(arg);
                        args.push(next_arg);
                        assert(string_views(args@) =~= before.push(av[i as int]).push(av[i + 1]));
                    },
                    Err(e) => {
                        return Err(e);
                    },
                }
                i = i + 2;
                continue;
            }
            if is_text(&arg, "--list-langs") || is_text(&arg, "--list-languages") {
                list_langs = true;
                i = i + 1;
                continue;
            }
            if is_text(&arg, "--list-targets") {
                list_targets = true;
                i = i + 1;
                continue;
            }
            match tool_of(&arg) {
                Some(t) => {
                    let rest = clone_from(&input_args, i + 1);
                    call_tool = Some((t, rest));
                    break;
                },
                None => {},
            }
            if is_text(&arg, "--target") {
                if i + 1 < input_args.len() {
                    let trg = input_args[i + 1].clone();
                    assert(trg@ == av[i + 1]);
                    if is_text(&trg, "global") || is_text(&trg, "g") {
                        target = None;
                    } else {
                        match resolve_target(targets, &trg) {
                            Some(Ok(k)) => {
                                target = Some(k);
                            },
                            Some(Err(msg)) => {
                                return Err(MuxError::from_string(msg));
                            },
                            None => {
                                target = Some(trg);
                            },
                        }
                    }
                    i = i + 2;
                } else {
                    i = i + 1;
                }
                continue;
            }
            match &target {
                Some(t) => {
                    let mut m = match trg_args {
                        Some(m) => m,
                        None => {
                            let e: Vec<(String, Vec<String>)> = Vec::new();
                            assert(trg_view(e@) =~= Seq::<(Seq<char>, Seq<Seq<char>>)>::empty());
                            e
                        },
                    };
                    push_target_arg(&mut m, t, arg);
                    trg_args = Some(m);
                },
                None => {
                    let ghost before = string_views(args@);
                    args.push(arg);
                    assert(string_views(args@) =~= before.push(av[i as int]));
                },
            }
            i = i + 1;
        }
        Ok(RawMuxConfig { locale, list_langs, list_targets, call_tool, args, trg_args })
    }
}

/// What to do once the command line has been read once.
#[derive(Clone, Copy, Debug, PartialEq, Eq, Structural)]
pub enum FirstPassAction {
    /// Print the supported languages and stop.
    ListLangs,
    /// Print the supported targets and stop.
    ListTargets,
    /// Hand the remaining arguments to the external tool and stop.
    CallTool,
    /// Go on with the settings.
    Proceed,
}

impl RawMuxConfig {
    /// What the first pass asks for, the language list first, then the
    /// target list, then a tool call.
    pub fn action(&self) -> (r: FirstPassAction)
        ensures
            r == if self.list_langs {
                FirstPassAction::ListLangs
            } else if self.list_targets {
                FirstPassAction::ListTargets
            } else if self.call_tool is Some {
                FirstPassAction::CallTool
            } else {
                FirstPassAction::Proceed
            },
    {
        if self.list_langs {
            FirstPassAction::ListLangs
        } else if self.list_targets {
            FirstPassAction::ListTargets
        } else if self.call_tool.is_some() {
            FirstPassAction::CallTool
        } else {
            FirstPassAction::Proceed
        }
    }
}

} // verus!
