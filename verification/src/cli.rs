//! Command-line and console-command dispatch of the desktop receiver.
use vstd::prelude::*;
use crate::receiver_runtime::equal_str;
use crate::text::{chars_of, concat3, owned, string_from_chars, trim, trim_str};

verus! {

/// What the process was asked to do.
#[derive(Debug, Clone)]
pub enum CliCommand {
    LoopbackDemo,
    ListPaired,
    ClearPaired,
    RemovePaired(String),
    /// `--remove-paired` without a device id.
    RemovePairedUsage,
    Serve,
    Gpui,
    ExportDiagnostics(Option<String>),
    VerifyVcamHost,
    VerifyVcamAbsent(String),
    /// `--verify-vcam-absent` without a symbolic link.
    VerifyVcamAbsentUsage,
    /// `--register-vcam`, and whether `--no-wait` was given.
    RegisterVcam(bool),
    UnregisterVcam,
    /// No argument on a platform with the desktop window: open it.
    LaunchGui,
    /// Nothing recognised: print the usage banner.
    Banner,
}

/// [`CliCommand`] with its texts as character sequences.
pub enum CliCommandSpec {
    LoopbackDemo,
    ListPaired,
    ClearPaired,
    RemovePaired(Seq<char>),
    RemovePairedUsage,
    Serve,
    Gpui,
    ExportDiagnostics(Option<Seq<char>>),
    VerifyVcamHost,
    VerifyVcamAbsent(Seq<char>),
    VerifyVcamAbsentUsage,
    RegisterVcam(bool),
    UnregisterVcam,
    LaunchGui,
    Banner,
}

impl View for CliCommand {
    type V = CliCommandSpec;

    open spec fn view(&self) -> CliCommandSpec {
        match self {
            CliCommand::LoopbackDemo => CliCommandSpec::LoopbackDemo,
            CliCommand::ListPaired => CliCommandSpec::ListPaired,
            CliCommand::ClearPaired => CliCommandSpec::ClearPaired,
            CliCommand::RemovePaired(id) => CliCommandSpec::RemovePaired(id@),
            CliCommand::RemovePairedUsage => CliCommandSpec::RemovePairedUsage,
            CliCommand::Serve => CliCommandSpec::Serve,
            CliCommand::Gpui => CliCommandSpec::Gpui,
            CliCommand::ExportDiagnostics(p) => CliCommandSpec::ExportDiagnostics(
                match p {
                    Some(p) => Some(p@),
                    None => None,
                },
            ),
            CliCommand::VerifyVcamHost => CliCommandSpec::VerifyVcamHost,
            CliCommand::VerifyVcamAbsent(l) => CliCommandSpec::VerifyVcamAbsent(l@),
            CliCommand::VerifyVcamAbsentUsage => CliCommandSpec::VerifyVcamAbsentUsage,
            CliCommand::RegisterVcam(no_wait) => CliCommandSpec::RegisterVcam(*no_wait),
            CliCommand::UnregisterVcam => CliCommandSpec::UnregisterVcam,
            CliCommand::LaunchGui => CliCommandSpec::LaunchGui,
            CliCommand::Banner => CliCommandSpec::Banner,
        }
    }
}

/// The index of the first argument equal to `a`.
pub open spec fn position(args: Seq<Seq<char>>, a: Seq<char>) -> Option<int>
    decreases args.len(),
{
    if args.len() == 0 {
        None
    } else {
        match position(args.drop_last(), a) {
            Some(i) => Some(i),
            None => if args.last() == a {
                Some(args.len() - 1)
            } else {
                None
            },
        }
    }
}

/// The argument after the first `a`, if both are there.
pub open spec fn value_after(args: Seq<Seq<char>>, a: Seq<char>) -> Option<Option<Seq<char>>> {
    match position(args, a) {
        None => None,
        Some(i) => Some(
            if i + 1 < args.len() {
                Some(args[i + 1])
            } else {
                None
            },
        ),
    }
}

/// The argument after the first `a` (empty when missing), or `None` when
/// `a` is absent.
pub open spec fn required_value(args: Seq<Seq<char>>, a: Seq<char>) -> Option<Seq<char>> {
    match value_after(args, a) {
        None => None,
        Some(Some(v)) => Some(v),
        Some(None) => Some(Seq::empty()),
    }
}

/// The dispatch, in the order the flags are tried. The virtual-camera
/// maintenance flags exist only where `vcam_commands` holds (Windows builds
/// with the virtual camera), and a bare start opens the window only where
/// `gui_by_default` holds.
pub open spec fn cli_command(args: Seq<Seq<char>>, vcam_commands: bool, gui_by_default: bool) -> CliCommandSpec {
    if position(args, "--loopback-demo"@) is Some {
        CliCommandSpec::LoopbackDemo
    } else if position(args, "--list-paired"@) is Some {
        CliCommandSpec::ListPaired
    } else if position(args, "--clear-paired"@) is Some {
        CliCommandSpec::ClearPaired
    } else if required_value(args, "--remove-paired"@) is Some {
        let id = required_value(args, "--remove-paired"@)->0;
        if id.len() == 0 {
            CliCommandSpec::RemovePairedUsage
        } else {
            CliCommandSpec::RemovePaired(id)
        }
    } else if position(args, "--serve"@) is Some {
        CliCommandSpec::Serve
    } else if position(args, "--gpui"@) is Some {
        CliCommandSpec::Gpui
    } else if value_after(args, "--export-diagnostics"@) is Some {
        CliCommandSpec::ExportDiagnostics(value_after(args, "--export-diagnostics"@)->0)
    } else if vcam_commands && position(args, "--verify-vcam-host"@) is Some {
        CliCommandSpec::VerifyVcamHost
    } else if vcam_commands && required_value(args, "--verify-vcam-absent"@) is Some {
        let link = required_value(args, "--verify-vcam-absent"@)->0;
        if link.len() == 0 {
            CliCommandSpec::VerifyVcamAbsentUsage
        } else {
            CliCommandSpec::VerifyVcamAbsent(link)
        }
    } else if vcam_commands && position(args, "--register-vcam"@) is Some {
        CliCommandSpec::RegisterVcam(position(args, "--no-wait"@) is Some)
    } else if vcam_commands && position(args, "--unregister-vcam"@) is Some {
        CliCommandSpec::UnregisterVcam
    } else if gui_by_default && args.len() <= 1 {
        CliCommandSpec::LaunchGui
    } else {
        CliCommandSpec::Banner
    }
}

pub open spec fn arg_views(args: Seq<String>) -> Seq<Seq<char>> {
    args.map_values(|s: String| s@)
}

proof fn lemma_position_step(args: Seq<Seq<char>>, a: Seq<char>, i: int)
    requires
        0 <= i < args.len(),
        position(args.take(i), a) is None,
    ensures
        position(args.take(i + 1), a) == if args[i] == a {
            Some(i)
        } else {
            None::<int>
        },
{
    assert(args.take(i + 1).drop_last() =~= args.take(i));
}

proof fn lemma_position_bounds(args: Seq<Seq<char>>, a: Seq<char>)
    ensures
        position(args, a) matches Some(i) ==> 0 <= i < args.len() && args[i] == a,
    decreases args.len(),
{
    if args.len() > 0 {
        lemma_position_bounds(args.drop_last(), a);
    }
}

proof fn lemma_position_found(args: Seq<Seq<char>>, a: Seq<char>, n: int)
    requires
        0 <= n <= args.len(),
        position(args.take(n), a) is Some,
    ensures
        position(args, a) == position(args.take(n), a),
    decreases args.len() - n,
{
    if n < args.len() {
        assert(args.take(n + 1).drop_last() =~= args.take(n));
        lemma_position_found(args, a, n + 1);
    } else {
        assert(args.take(n) =~= args);
    }
}

/// Index of the first argument equal to `a`.
fn find_arg(args: &[String], a: &str) -> (r: Option<usize>)
    ensures
        match position(arg_views(args@), a@) {
            Some(i) => r == Some(i as usize),
            None => r is None,
        },
{
    let ghost views = arg_views(args@);
    let mut i: usize = 0;
    while i < args.len()
        invariant
            views == arg_views(args@),
            i <= args@.len(),
            position(views.take(i as int), a@) is None,
        decreases args@.len() - i,
    {
        proof {
            lemma_position_step(views, a@, i as int);
        }
        if equal_str(args[i].as_str(), a) {
            proof {
                lemma_position_found(views, a@, i + 1);
            }
            return Some(i);
        }
        i = i + 1;
    }
    assert(views.take(args@.len() as int) =~= views);
    None
}

fn has_arg(args: &[String], a: &str) -> (r: bool)
    ensures
        r == position(arg_views(args@), a@) is Some,
{
    find_arg(args, a).is_some()
}

/// The argument after the first `a`, when `a` is there.
fn arg_after(args: &[String], a: &str) -> (r: Option<Option<String>>)
    ensures
        match value_after(arg_views(args@), a@) {
            None => r is None,
            Some(None) => r == Some(None::<String>),
            Some(Some(v)) => r matches Some(Some(s)) && s@ == v,
        },
{
    proof {
        lemma_position_bounds(arg_views(args@), a@);
    }
    match find_arg(args, a) {
        None => None,
        Some(i) => {
            assert(arg_views(args@).len() == args@.len());
            assert(i < args.len());
            if i + 1 < args.len() {
                Some(Some(args[i + 1].clone()))
            } else {
                Some(None)
            }
        },
    }
}

/// Decide what the process does from its arguments (the program name
/// first); see [`cli_command`].
pub fn parse_cli(args: &[String], vcam_commands: bool, gui_by_default: bool) -> (r: CliCommand)
    ensures
        r@ == cli_command(arg_views(args@), vcam_commands, gui_by_default),
{
    let ghost views = arg_views(args@);
    proof {
        reveal_strlit("--loopback-demo");
        reveal_strlit("--list-paired");
        reveal_strlit("--clear-paired");
        reveal_strlit("--remove-paired");
        reveal_strlit("--serve");
        reveal_strlit("--gpui");
        reveal_strlit("--export-diagnostics");
        reveal_strlit("--verify-vcam-host");
        reveal_strlit("--verify-vcam-absent");
        reveal_strlit("--register-vcam");
        reveal_strlit("--no-wait");
        reveal_strlit("--unregister-vcam");
    }
    if has_arg(args, "--loopback-demo") {
        return CliCommand::LoopbackDemo;
    }
    if has_arg(args, "--list-paired") {
        return CliCommand::ListPaired;
    }
    if has_arg(args, "--clear-paired") {
        return CliCommand::ClearPaired;
    }
    match arg_after(args, "--remove-paired") {
        Some(value) => {
            return match value {
                Some(id) => if id.as_str().is_empty() {
                    CliCommand::RemovePairedUsage
                } else {
                    CliCommand::RemovePaired(id)
                },
                None => CliCommand::RemovePairedUsage,
            };
        },
        None => {},
    }
    if has_arg(args, "--serve") {
        return CliCommand::Serve;
    }
    if has_arg(args, "--gpui") {
        return CliCommand::Gpui;
    }
    match arg_after(args, "--export-diagnostics") {
        Some(path) => {
            return CliCommand::ExportDiagnostics(path);
        },
        None => {},
    }
    if vcam_commands {
        if has_arg(args, "--verify-vcam-host") {
            return CliCommand::VerifyVcamHost;
        }
        match arg_after(args, "--verify-vcam-absent") {
            Some(value) => {
                return match value {
                    Some(link) => if link.as_str().is_empty() {
                        CliCommand::VerifyVcamAbsentUsage
                    } else {
                        CliCommand::VerifyVcamAbsent(link)
                    },
                    None => CliCommand::VerifyVcamAbsentUsage,
                };
            },
            None => {},
        }
        if has_arg(args, "--register-vcam") {
            return CliCommand::RegisterVcam(has_arg(args, "--no-wait"));
        }
        if has_arg(args, "--unregister-vcam") {
            return CliCommand::UnregisterVcam;
        }
    }
    if gui_by_default && args.len() <= 1 {
        return CliCommand::LaunchGui;
    }
    CliCommand::Banner
}

/// A line typed on the console of the serving receiver.
#[derive(Debug, Clone)]
pub enum ConsoleCommand {
    /// A blank line.
    Ignore,
    Confirm,
    List,
    Remove(String),
    Export,
    Stats,
    Help,
    Unknown(String),
}

/// [`ConsoleCommand`] with its texts as character sequences.
pub enum ConsoleCommandSpec {
    Ignore,
    Confirm,
    List,
    Remove(Seq<char>),
    Export,
    Stats,
    Help,
    Unknown(Seq<char>),
}

impl View for ConsoleCommand {
    type V = ConsoleCommandSpec;

    open spec fn view(&self) -> ConsoleCommandSpec {
        match self {
            ConsoleCommand::Ignore => ConsoleCommandSpec::Ignore,
            ConsoleCommand::Confirm => ConsoleCommandSpec::Confirm,
            ConsoleCommand::List => ConsoleCommandSpec::List,
            ConsoleCommand::Remove(id) => ConsoleCommandSpec::Remove(id@),
            ConsoleCommand::Export => ConsoleCommandSpec::Export,
            ConsoleCommand::Stats => ConsoleCommandSpec::Stats,
            ConsoleCommand::Help => ConsoleCommandSpec::Help,
            ConsoleCommand::Unknown(l) => ConsoleCommandSpec::Unknown(l@),
        }
    }
}

/// `s` with every leading copy of `p` removed (`str::trim_start_matches`).
pub open spec fn strip_prefixes(s: Seq<char>, p: Seq<char>) -> Seq<char>
    decreases s.len(),
{
    if p.len() > 0 && p.len() <= s.len() && s.subrange(0, p.len() as int) == p {
        strip_prefixes(s.subrange(p.len() as int, s.len() as int), p)
    } else {
        s
    }
}

/// The meaning of a console line, read after trimming it.
pub open spec fn console_command(line: Seq<char>) -> ConsoleCommandSpec {
    let t = trim(line);
    if t.len() == 0 {
        ConsoleCommandSpec::Ignore
    } else if t == "confirm"@ || t == "confirm-pairing"@ {
        ConsoleCommandSpec::Confirm
    } else if t == "list"@ || t == "list-paired"@ {
        ConsoleCommandSpec::List
    } else if t.len() >= 7 && t.subrange(0, 7) == "remove "@ {
        ConsoleCommandSpec::Remove(trim(strip_prefixes(t, "remove "@)))
    } else if t == "export-diagnostics"@ || t == "export"@ {
        ConsoleCommandSpec::Export
    } else if t == "stats"@ || t == "live-stats"@ {
        ConsoleCommandSpec::Stats
    } else if t == "help"@ {
        ConsoleCommandSpec::Help
    } else {
        ConsoleCommandSpec::Unknown(t)
    }
}

fn matches_at(s: &Vec<char>, p: &Vec<char>, at: usize) -> (r: bool)
    ensures
        r == (at + p@.len() <= s@.len() && s@.subrange(at as int, at + p@.len()) == p@),
{
    if at > s.len() || p.len() > s.len() - at {
        return false;
    }
    let mut k: usize = 0;
    while k < p.len()
        invariant
            at + p@.len() <= s@.len(),
            at + p.len() <= s.len(),
            k <= p@.len(),
            forall|j: int| 0 <= j < k ==> s@[at + j] == #[trigger] p@[j],
        decreases p@.len() - k,
    {
        if s[at + k] != p[k] {
            assert(s@.subrange(at as int, at + p@.len())[k as int] != p@[k as int]);
            return false;
        }
        k = k + 1;
    }
    assert(s@.subrange(at as int, at + p@.len()) =~= p@);
    true
}

fn strip_all_prefixes(s: &Vec<char>, p: &Vec<char>) -> (r: String)
    ensures
        r@ == strip_prefixes(s@, p@),
{
    let mut start: usize = 0;
    let n = p.len();
    if n == 0 {
        return string_from_chars(s.as_slice());
    }
    assert(s@.subrange(0, s@.len() as int) =~= s@);
    while matches_at(s, p, start)
        invariant
            n == p@.len(),
            n > 0,
            s@.len() == s.len(),
            start <= s@.len(),
            strip_prefixes(s@.subrange(start as int, s@.len() as int), p@) == strip_prefixes(s@, p@),
        decreases s@.len() - start,
    {
        assert(s@.subrange(start as int, s@.len() as int).subrange(0, n as int) =~= s@.subrange(
            start as int,
            (start + n) as int,
        ));
        assert(s@.subrange(start as int, s@.len() as int).subrange(n as int, s@.len() - start) =~= s@.subrange(
            (start + n) as int,
            s@.len() as int,
        ));
        start = start + n;
    }
    if n <= s.len() - start {
        assert(s@.subrange(start as int, s@.len() as int).subrange(0, n as int) =~= s@.subrange(
            start as int,
            (start + n) as int,
        ));
    }
    assert(strip_prefixes(s@.subrange(start as int, s@.len() as int), p@) == s@.subrange(
        start as int,
        s@.len() as int,
    ));
    string_from_chars(&s.as_slice()[start..s.len()])
}

/// Read a console line; see [`console_command`].
pub fn parse_console_command(line: &str) -> (r: ConsoleCommand)
    ensures
        r@ == console_command(line@),
{
    proof {
        reveal_strlit("confirm");
        reveal_strlit("confirm-pairing");
        reveal_strlit("list");
        reveal_strlit("list-paired");
        reveal_strlit("remove ");
        reveal_strlit("export-diagnostics");
        reveal_strlit("export");
        reveal_strlit("stats");
        reveal_strlit("live-stats");
        reveal_strlit("help");
    }
    let t = trim_str(line);
    let ts = t.as_str();
    if ts.is_empty() {
        return ConsoleCommand::Ignore;
    }
    if equal_str(ts, "confirm") || equal_str(ts, "confirm-pairing") {
        return ConsoleCommand::Confirm;
    }
    if equal_str(ts, "list") || equal_str(ts, "list-paired") {
        return ConsoleCommand::List;
    }
    let cs = chars_of(ts);
    let prefix = chars_of("remove ");
    if matches_at(&cs, &prefix, 0) {
        let rest = strip_all_prefixes(&cs, &prefix);
        let id = trim_str(rest.as_str());
        return ConsoleCommand::Remove(id);
    }
    if equal_str(ts, "export-diagnostics") || equal_str(ts, "export") {
        return ConsoleCommand::Export;
    }
    if equal_str(ts, "stats") || equal_str(ts, "live-stats") {
        return ConsoleCommand::Stats;
    }
    if equal_str(ts, "help") {
        return ConsoleCommand::Help;
    }
    ConsoleCommand::Unknown(t)
}

/// The console hint shown while a pairing code is on offer.
pub open spec fn pairing_hint(code: Seq<char>) -> Seq<char> {
    "Pairing code: "@ + code + " — type `confirm` on desktop to approve"@
}

/// The serve loop's pairing hint step: with a code on offer, the hint is
/// printed only when it differs from the last one printed; without a code,
/// the last hint is forgotten. Returns what to print and the new last hint.
pub fn next_pairing_hint(last: &str, code: Option<&str>) -> (r: (Option<String>, String))
    ensures
        match code {
            None => r.0 is None && r.1@ == Seq::<char>::empty(),
            Some(c) => if pairing_hint(c@) == last@ {
                r.0 is None && r.1@ == last@
            } else {
                r.0 matches Some(h) && h@ == pairing_hint(c@) && r.1@ == pairing_hint(c@)
            },
        },
{
    match code {
        None => (None, String::new()),
        Some(c) => {
            let hint = concat3("Pairing code: ", c, " — type `confirm` on desktop to approve");
            if equal_str(hint.as_str(), last) {
                (None, owned(last))
            } else {
                let shown = hint.clone();
                (Some(shown), hint)
            }
        },
    }
}

/// An argument is found exactly when it is among the arguments.
pub proof fn lemma_position_iff_contains(args: Seq<Seq<char>>, a: Seq<char>)
    ensures
        position(args, a) is Some <==> args.contains(a),
    decreases args.len(),
{
    if args.len() > 0 {
        let init = args.drop_last();
        lemma_position_iff_contains(init, a);
        if init.contains(a) {
            let i = choose|i: int| 0 <= i < init.len() && init[i] == a;
            assert(args[i] == a);
        }
        if args.contains(a) && !init.contains(a) {
            let i = choose|i: int| 0 <= i < args.len() && args[i] == a;
            if i < args.len() - 1 {
                assert(init[i] == a);
            }
        }
        if args.last() == a {
            assert(args[args.len() - 1] == a);
        }
    }
}

/// The flags of the receiver's management commands, which win over the rest
/// in this order.
pub open spec fn has_flag(args: Seq<Seq<char>>, flag: Seq<char>) -> bool {
    args.contains(flag)
}

/// How the command line dispatches, by which flags are present: a
/// management flag wins over the ones after it in the order
/// `--loopback-demo`, `--list-paired`, `--clear-paired`, `--remove-paired`,
/// `--serve`, `--gpui`, `--export-diagnostics`; the banner comes only when
/// none of them (nor, where they exist, a virtual-camera flag) is given
/// and no window opens by default.
pub proof fn lemma_cli_dispatch(args: Seq<Seq<char>>, vcam_commands: bool, gui_by_default: bool)
    ensures
        ({
            let c = cli_command(args, vcam_commands, gui_by_default);
            let lo = has_flag(args, "--loopback-demo"@);
            let li = has_flag(args, "--list-paired"@);
            let cl = has_flag(args, "--clear-paired"@);
            let rm = has_flag(args, "--remove-paired"@);
            let sv = has_flag(args, "--serve"@);
            let gp = has_flag(args, "--gpui"@);
            let ex = has_flag(args, "--export-diagnostics"@);
            &&& lo ==> c is LoopbackDemo
            &&& !lo && li ==> c is ListPaired
            &&& !lo && !li && cl ==> c is ClearPaired
            &&& !lo && !li && !cl && rm ==> (c is RemovePaired || c is RemovePairedUsage)
            &&& !lo && !li && !cl && !rm && sv ==> c is Serve
            &&& !lo && !li && !cl && !rm && !sv && gp ==> c is Gpui
            &&& !lo && !li && !cl && !rm && !sv && !gp && ex ==> c is ExportDiagnostics
            &&& c matches CliCommandSpec::RemovePaired(id) ==> exists|i: int|
                0 <= i < args.len() - 1 && args[i] == "--remove-paired"@ && #[trigger] args[i + 1] == id
            &&& c matches CliCommandSpec::ExportDiagnostics(Some(p)) ==> exists|i: int|
                0 <= i < args.len() - 1 && args[i] == "--export-diagnostics"@ && #[trigger] args[i + 1] == p
            &&& c matches CliCommandSpec::RegisterVcam(no_wait) ==> no_wait == has_flag(args, "--no-wait"@)
            &&& c is Banner ==> !lo && !li && !cl && !rm && !sv && !gp && !ex && !(gui_by_default
                && args.len() <= 1) && (vcam_commands ==> !has_flag(args, "--verify-vcam-host"@)
                && !has_flag(args, "--verify-vcam-absent"@) && !has_flag(args, "--register-vcam"@)
                && !has_flag(args, "--unregister-vcam"@))
        }),
{
    lemma_position_iff_contains(args, "--loopback-demo"@);
    lemma_position_iff_contains(args, "--list-paired"@);
    lemma_position_iff_contains(args, "--clear-paired"@);
    lemma_position_iff_contains(args, "--remove-paired"@);
    lemma_position_iff_contains(args, "--serve"@);
    lemma_position_iff_contains(args, "--gpui"@);
    lemma_position_iff_contains(args, "--export-diagnostics"@);
    lemma_position_iff_contains(args, "--verify-vcam-host"@);
    lemma_position_iff_contains(args, "--verify-vcam-absent"@);
    lemma_position_iff_contains(args, "--register-vcam"@);
    lemma_position_iff_contains(args, "--unregister-vcam"@);
    lemma_position_iff_contains(args, "--no-wait"@);
    lemma_position_bounds(args, "--remove-paired"@);
    lemma_position_bounds(args, "--export-diagnostics"@);
    let c = cli_command(args, vcam_commands, gui_by_default);
    match c {
        CliCommandSpec::RemovePaired(id) => {
            let i = position(args, "--remove-paired"@)->0;
            assert(args[i + 1] == id);
        },
        CliCommandSpec::ExportDiagnostics(Some(p)) => {
            let i = position(args, "--export-diagnostics"@)->0;
            assert(args[i + 1] == p);
        },
        _ => {},
    }
}

/// What a console line asks for, by its text without surrounding white
/// space: each command word and its alias, and `remove` followed by an id.
pub proof fn lemma_console_words(line: Seq<char>)
    ensures
        ({
            let t = trim(line);
            let c = console_command(line);
            &&& t.len() == 0 ==> c is Ignore
            &&& (t == "confirm"@ || t == "confirm-pairing"@) ==> c is Confirm
            &&& (t == "list"@ || t == "list-paired"@) ==> c is List
            &&& (t == "export-diagnostics"@ || t == "export"@) ==> c is Export
            &&& (t == "stats"@ || t == "live-stats"@) ==> c is Stats
            &&& t == "help"@ ==> c is Help
            &&& c is Stats ==> (t == "stats"@ || t == "live-stats"@)
        }),
{
    reveal_strlit("confirm");
    reveal_strlit("confirm-pairing");
    reveal_strlit("list");
    reveal_strlit("list-paired");
    reveal_strlit("remove ");
    reveal_strlit("export-diagnostics");
    reveal_strlit("export");
    reveal_strlit("stats");
    reveal_strlit("live-stats");
    reveal_strlit("help");
    let t = trim(line);
    if t == "live-stats"@ {
        assert(t.subrange(0, 7) != "remove "@) by {
            assert(t.subrange(0, 7)[0] == 'l');
        }
    }
    if t == "export-diagnostics"@ {
        assert(t.subrange(0, 7) != "remove "@) by {
            assert(t.subrange(0, 7)[0] == 'e');
        }
    }
    if t == "confirm-pairing"@ {
        assert(t.subrange(0, 7) != "remove "@) by {
            assert(t.subrange(0, 7)[0] == 'c');
        }
    }
    if t == "list-paired"@ {
        assert(t.subrange(0, 7) != "remove "@) by {
            assert(t.subrange(0, 7)[0] == 'l');
        }
    }
    if t == "confirm"@ {
        assert(t.subrange(0, 7) != "remove "@) by {
            assert(t.subrange(0, 7)[0] == 'c');
        }
    }
    if t == "help"@ {
        assert(t != "list"@) by {
            assert(t[0] == 'h');
        }
    }
}

} // verus!
