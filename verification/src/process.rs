//! The launch engine: argument construction, packaged-install argument
//! serialization, well-known binary locations, binary selection and
//! validation, and the classification of every launch outcome. The
//! embedding process performs the spawning itself and feeds each outcome
//! back through the verified classifiers here.

use vstd::prelude::*;
use crate::platform::{EnvVarError, HostEnv, Os};
use crate::config::Config;
use crate::text::views_of;
use crate::sys::path_exists;

verus! {

/// Why a browser launch failed.
#[derive(Clone, Debug, PartialEq, Eq)]
pub enum ForkBrowserProcError {
    /// The immediate child of the detachment step reported a non-zero
    /// exit code.
    BadExitCode,
    /// The first process duplication itself failed.
    ForkError { error_message: String },
    /// The direct spawn call failed.
    ProcessLaunchError { error_message: String },
    /// The packaged-install activation call failed.
    MSIXProcessLaunchError { error_message: String },
    /// No candidate executable path could even be identified.
    BinaryNotFound,
    /// A candidate path was identified but does not exist on disk, and
    /// no alternative was found either.
    BinaryDoesNotExist,
    /// The activation service itself could not be instantiated.
    COMError { error_message: String },
}

/// Why the parent-process inspection could not produce a path.
#[derive(Clone, Debug, PartialEq, Eq)]
pub enum GetParentProcError {
    NoCrashReporterEnvVar(EnvVarError),
    LinuxOpenCurProcFailed { error_message: String },
    LinuxFailedToParsePidString(String),
    LinuxCouldNotFindPPid,
    LinuxResolveParentExeFailed { error_message: String },
}

/// The view of an optional string.
pub open spec fn spec_view_opt(u: Option<String>) -> Option<Seq<char>> {
    match u {
        Some(s) => Some(s@),
        None => None,
    }
}

/// The argument list handed to the browser: the profile-selection flag
/// and the profile's display name, then, where a URL is to be opened,
/// the new-tab flag and the URL.
pub open spec fn spec_browser_args(profile_name: Seq<char>, url: Option<Seq<char>>) -> Seq<
    Seq<char>,
> {
    match url {
        None => seq!["-P"@, profile_name],
        Some(u) => seq!["-P"@, profile_name, "--new-tab"@, u],
    }
}

/// Builds the browser argument list for a profile and an optional URL.
pub fn build_browser_args(profile_name: &String, url: Option<String>) -> (r: Vec<String>)
    ensures
        views_of(r@) == spec_browser_args(profile_name@, spec_view_opt(url)),
{
    let mut v: Vec<String> = Vec::new();
    v.push(String::from_str("-P"));
    v.push(profile_name.clone());
    match url {
        Some(u) => {
            v.push(String::from_str("--new-tab"));
            v.push(u);
            proof {
                assert(views_of(v@) =~~= spec_browser_args(
                    profile_name@,
                    spec_view_opt(url),
                ));
            }
        },
        None => {
            proof {
                assert(views_of(v@) =~~= spec_browser_args(
                    profile_name@,
                    spec_view_opt(url),
                ));
            }
        },
    }
    v
}

/// How one character is written inside a quoted argument: a literal
/// double quote is escaped by tripling it.
pub open spec fn spec_quote_encoding(c: char) -> Seq<char> {
    if c == '"' {
        seq!['"', '"', '"']
    } else {
        seq![c]
    }
}

/// The body of a quoted argument: every character encoded in order.
pub open spec fn spec_escape_quotes(s: Seq<char>) -> Seq<char>
    decreases s.len(),
{
    if s.len() == 0 {
        Seq::<char>::empty()
    } else {
        spec_escape_quotes(s.drop_last()) + spec_quote_encoding(s.last())
    }
}

/// An argument as the activation service receives it: the escaped body
/// surrounded by double quotes.
pub open spec fn spec_quote_arg(s: Seq<char>) -> Seq<char> {
    seq!['"'] + spec_escape_quotes(s) + seq!['"']
}

/// The receiver's reading of a quoted-argument body: a run of three
/// double quotes stands for one literal double quote; every other
/// character stands for itself.
pub open spec fn spec_unescape_quotes(s: Seq<char>) -> Seq<char>
    decreases s.len(),
{
    if s.len() == 0 {
        Seq::<char>::empty()
    } else if s.len() >= 3 && s[0] == '"' && s[1] == '"' && s[2] == '"' {
        seq!['"'] + spec_unescape_quotes(s.skip(3))
    } else {
        seq![s[0]] + spec_unescape_quotes(s.skip(1))
    }
}

/// The receiver's reading of a whole quoted argument: the surrounding
/// quotes dropped, the body unescaped.
pub open spec fn spec_unquote_arg(t: Seq<char>) -> Seq<char> {
    spec_unescape_quotes(t.subrange(1, t.len() - 1))
}

proof fn lemma_escape_quotes_front(s: Seq<char>)
    requires
        s.len() > 0,
    ensures
        spec_escape_quotes(s) == spec_quote_encoding(s[0]) + spec_escape_quotes(s.skip(1)),
    decreases s.len(),
{
    if s.len() == 1 {
        assert(s.drop_last() =~= Seq::<char>::empty());
        assert(s.skip(1) =~= Seq::<char>::empty());
        assert(spec_escape_quotes(s) =~= spec_quote_encoding(s[0]) + spec_escape_quotes(
            s.skip(1),
        ));
    } else {
        lemma_escape_quotes_front(s.drop_last());
        assert(s.drop_last().skip(1) =~= s.skip(1).drop_last());
        assert(s.drop_last()[0] == s[0]);
        assert(s.skip(1).last() == s.last());
        assert(s.skip(1).len() > 0);
        assert(spec_escape_quotes(s.skip(1)) == spec_escape_quotes(s.skip(1).drop_last())
            + spec_quote_encoding(s.skip(1).last()));
        assert(spec_escape_quotes(s) =~= spec_quote_encoding(s[0]) + spec_escape_quotes(
            s.skip(1),
        ));
    }
}

/// Unescaping inverts escaping: the receiver of a quoted-argument body
/// reads back exactly the characters that were encoded.
pub proof fn lemma_unescape_escape_quotes(s: Seq<char>)
    ensures
        spec_unescape_quotes(spec_escape_quotes(s)) == s,
    decreases s.len(),
{
    if s.len() == 0 {
        assert(spec_escape_quotes(s) =~= Seq::<char>::empty());
        assert(spec_unescape_quotes(spec_escape_quotes(s)) =~= s);
    } else {
        lemma_escape_quotes_front(s);
        lemma_unescape_escape_quotes(s.skip(1));
        let t = spec_escape_quotes(s);
        let rest = spec_escape_quotes(s.skip(1));
        if s[0] == '"' {
            assert(t =~= seq!['"', '"', '"'] + rest);
            assert(t.len() >= 3 && t[0] == '"' && t[1] == '"' && t[2] == '"');
            assert(t.skip(3) =~= rest);
            assert(spec_unescape_quotes(t) =~= seq!['"'] + s.skip(1));
            assert(spec_unescape_quotes(t) =~= s);
        } else {
            assert(t =~= seq![s[0]] + rest);
            assert(!(t.len() >= 3 && t[0] == '"' && t[1] == '"' && t[2] == '"'));
            assert(t.skip(1) =~= rest);
            assert(spec_unescape_quotes(t) =~= seq![s[0]] + s.skip(1));
            assert(spec_unescape_quotes(t) =~= s);
        }
    }
}

/// Argument quoting round-trips: a profile name passed through the
/// packaged-activation serialization, quotes and all, is read back by
/// the receiver with every literal double quote intact.
pub proof fn lemma_quote_arg_round_trip(s: Seq<char>)
    ensures
        spec_unquote_arg(spec_quote_arg(s)) == s,
{
    let q = spec_quote_arg(s);
    assert(q.subrange(1, q.len() - 1) =~= spec_escape_quotes(s));
    lemma_unescape_escape_quotes(s);
}

/// Quotes one argument for the activation service.
pub fn quote_browser_arg(arg: &String) -> (r: String)
    ensures
        r@ == spec_quote_arg(arg@),
{
    let mut out = String::from_str("\"");
    proof {
        reveal_strlit("\"");
        assert("\""@ =~= seq!['"']);
    }
    let n = arg.as_str().unicode_len();
    for i in 0..n
        invariant
            n == arg@.len(),
            out@ == seq!['"'] + spec_escape_quotes(arg@.take(i as int)),
    {
        proof {
            assert(arg@.take(i + 1).drop_last() =~= arg@.take(i as int));
            assert(arg@.take(i + 1).last() == arg@[i as int]);
        }
        if arg.as_str().get_char(i) == '"' {
            out.append("\"\"\"");
            proof {
                reveal_strlit("\"\"\"");
                assert("\"\"\""@ =~= seq!['"', '"', '"']);
                assert(out@ =~= seq!['"'] + spec_escape_quotes(arg@.take(i + 1)));
            }
        } else {
            let piece = arg.as_str().substring_char(i, i + 1);
            out.append(piece);
            proof {
                assert(piece@ =~= seq![arg@[i as int]]);
                assert(out@ =~= seq!['"'] + spec_escape_quotes(arg@.take(i + 1)));
            }
        }
    }
    out.append("\"");
    proof {
        assert(arg@.take(n as int) =~= arg@);
        assert(out@ =~= spec_quote_arg(arg@));
    }
    out
}

/// Reads one quoted argument back the way the activated process does:
/// nothing unless the string is wrapped in double quotes; else the body
/// with every tripled quote collapsed. Together with
/// `lemma_quote_arg_round_trip` this witnesses that quoting is
/// reversible.
pub fn unquote_browser_arg(t: &String) -> (r: Option<String>)
    ensures
        match r {
            Some(s) => t@.len() >= 2 && t@.first() == '"' && t@.last() == '"' && s@
                == spec_unquote_arg(t@),
            None => t@.len() < 2 || t@.first() != '"' || t@.last() != '"',
        },
{
    let n = t.as_str().unicode_len();
    if n < 2 || t.as_str().get_char(0) != '"' || t.as_str().get_char(n - 1) != '"' {
        return None;
    }
    let body = t.as_str().substring_char(1, n - 1);
    let m = body.unicode_len();
    let mut out = String::new();
    let mut i: usize = 0;
    proof {
        assert(body@.skip(0) =~= body@);
        assert(Seq::<char>::empty() + spec_unescape_quotes(body@) =~= spec_unescape_quotes(
            body@,
        ));
    }
    while i < m
        invariant
            m == body@.len(),
            i <= m,
            spec_unescape_quotes(body@) == out@ + spec_unescape_quotes(body@.skip(i as int)),
        decreases m - i,
    {
        proof {
            assert(body@.skip(i as int)[0] == body@[i as int]);
        }
        if m - i > 2 && body.get_char(i) == '"' && body.get_char(i + 1) == '"' && body.get_char(
            i + 2,
        ) == '"' {
            out.append("\"");
            proof {
                reveal_strlit("\"");
                assert("\""@ =~= seq!['"']);
                let rest = body@.skip(i as int);
                assert(rest[1] == body@[i + 1] && rest[2] == body@[i + 2]);
                assert(rest.skip(3) =~= body@.skip(i + 3));
            }
            i = i + 3;
        } else {
            let piece = body.substring_char(i, i + 1);
            out.append(piece);
            proof {
                let rest = body@.skip(i as int);
                if rest.len() >= 3 && rest[0] == '"' && rest[1] == '"' && rest[2] == '"' {
                    assert(body@[i + 1] == rest[1] && body@[i + 2] == rest[2]);
                    assert(i + 2 < m);
                    assert(false);
                }
                assert(piece@ =~= seq![rest[0]]);
                assert(rest.skip(1) =~= body@.skip(i + 1));
            }
            i = i + 1;
        }
    }
    proof {
        assert(body@.skip(m as int) =~= Seq::<char>::empty());
        assert(out@ =~= spec_unescape_quotes(body@));
        assert(body@ =~= t@.subrange(1, t@.len() - 1));
    }
    Some(out)
}

/// The whole argument list serialized for the activation service: each
/// argument quoted, the quoted arguments joined by single spaces.
pub open spec fn spec_serialize_args(args: Seq<Seq<char>>) -> Seq<char>
    decreases args.len(),
{
    if args.len() == 0 {
        Seq::<char>::empty()
    } else if args.len() == 1 {
        spec_quote_arg(args[0])
    } else {
        spec_serialize_args(args.drop_last()) + seq![' '] + spec_quote_arg(args.last())
    }
}

/// Serializes an argument list into the single string handed to the
/// activation service.
pub fn serialize_browser_args(args: &Vec<String>) -> (r: String)
    ensures
        r@ == spec_serialize_args(views_of(args@)),
{
    let mut out = String::new();
    let n = args.len();
    for i in 0..n
        invariant
            n == args.len(),
            out@ == spec_serialize_args(views_of(args@).take(i as int)),
    {
        proof {
            assert(views_of(args@).take(i + 1).drop_last() =~= views_of(args@).take(i as int));
            assert(views_of(args@).take(i + 1).last() == args@[i as int]@);
        }
        let quoted = quote_browser_arg(&args[i]);
        if i > 0 {
            out.append(" ");
            proof {
                reveal_strlit(" ");
                assert(" "@ =~= seq![' ']);
            }
        }
        out.append(quoted.as_str());
        proof {
            assert(out@ =~= spec_serialize_args(views_of(args@).take(i + 1)));
        }
    }
    proof {
        assert(views_of(args@).take(n as int) =~= views_of(args@));
    }
    out
}

/// The program-files directory, or its conventional location where the
/// environment does not name one.
pub open spec fn spec_program_files(env: HostEnv) -> Seq<char> {
    match env.program_files {
        Some(p) => p@,
        None => "C:\\Program Files"@,
    }
}

/// The 32-bit program-files directory, or its conventional location.
pub open spec fn spec_program_files_x86(env: HostEnv) -> Seq<char> {
    match env.program_files_x86 {
        Some(p) => p@,
        None => "C:\\Program Files (x86)"@,
    }
}

/// The well-known installation locations probed for a browser binary on
/// this family, in precedence order: the four known browser-family
/// variants in a fixed order, and within a variant the standard package
/// locations before the store or flatpak location.
pub open spec fn spec_browser_binary_candidates(os: Os, env: HostEnv) -> Seq<Seq<char>> {
    match os {
        Os::Linux => seq![
            "/usr/bin/firefox"@,
            "/usr/local/bin/firefox"@,
            "/snap/bin/firefox"@,
            "/var/lib/flatpak/app/org.mozilla.firefox/current/active/files/bin/firefox"@,
            "/usr/bin/librewolf"@,
            "/usr/local/bin/librewolf"@,
            "/snap/bin/librewolf"@,
            "/var/lib/flatpak/app/io.gitlab.librewolf-community/current/active/files/bin/librewolf"@,
            "/usr/bin/waterfox"@,
            "/usr/local/bin/waterfox"@,
            "/snap/bin/waterfox"@,
            "/var/lib/flatpak/app/net.waterfox.waterfox/current/active/files/bin/waterfox"@,
            "/usr/bin/zen-browser"@,
            "/usr/local/bin/zen-browser"@,
            "/snap/bin/zen-browser"@,
        ],
        Os::MacOs => seq![
            "/Applications/Firefox.app/Contents/MacOS/firefox"@,
            "/Applications/LibreWolf.app/Contents/MacOS/librewolf"@,
            "/Applications/Waterfox.app/Contents/MacOS/waterfox"@,
            "/Applications/Zen Browser.app/Contents/MacOS/zen-browser"@,
        ],
        Os::Windows => seq![
            spec_program_files(env) + "\\Mozilla Firefox\\firefox.exe"@,
            spec_program_files(env) + "\\LibreWolf\\librewolf.exe"@,
            spec_program_files(env) + "\\Waterfox\\waterfox.exe"@,
            spec_program_files(env) + "\\Zen Browser\\zen-browser.exe"@,
            spec_program_files_x86(env) + "\\Mozilla Firefox\\firefox.exe"@,
            spec_program_files_x86(env) + "\\LibreWolf\\librewolf.exe"@,
            spec_program_files_x86(env) + "\\Waterfox\\waterfox.exe"@,
            spec_program_files_x86(env) + "\\Zen Browser\\zen-browser.exe"@,
        ],
    }
}

fn program_files_dir(env: &HostEnv) -> (r: String)
    ensures
        r@ == spec_program_files(*env),
{
    match &env.program_files {
        Some(p) => p.clone(),
        None => String::from_str("C:\\Program Files"),
    }
}

fn program_files_x86_dir(env: &HostEnv) -> (r: String)
    ensures
        r@ == spec_program_files_x86(*env),
{
    match &env.program_files_x86 {
        Some(p) => p.clone(),
        None => String::from_str("C:\\Program Files (x86)"),
    }
}

/// Builds the probe list of well-known binary locations.
pub fn browser_binary_candidates(os: Os, env: &HostEnv) -> (r: Vec<String>)
    ensures
        views_of(r@) == spec_browser_binary_candidates(os, *env),
{
    let mut v: Vec<String> = Vec::new();
    match os {
        Os::Linux => {
            v.push(String::from_str("/usr/bin/firefox"));
            v.push(String::from_str("/usr/local/bin/firefox"));
            v.push(String::from_str("/snap/bin/firefox"));
            v.push(String::from_str(
                "/var/lib/flatpak/app/org.mozilla.firefox/current/active/files/bin/firefox",
            ));
            v.push(String::from_str("/usr/bin/librewolf"));
            v.push(String::from_str("/usr/local/bin/librewolf"));
            v.push(String::from_str("/snap/bin/librewolf"));
            v.push(String::from_str(
                "/var/lib/flatpak/app/io.gitlab.librewolf-community/current/active/files/bin/librewolf",
            ));
            v.push(String::from_str("/usr/bin/waterfox"));
            v.push(String::from_str("/usr/local/bin/waterfox"));
            v.push(String::from_str("/snap/bin/waterfox"));
            v.push(String::from_str(
                "/var/lib/flatpak/app/net.waterfox.waterfox/current/active/files/bin/waterfox",
            ));
            v.push(String::from_str("/usr/bin/zen-browser"));
            v.push(String::from_str("/usr/local/bin/zen-browser"));
            v.push(String::from_str("/snap/bin/zen-browser"));
        },
        Os::MacOs => {
            v.push(String::from_str("/Applications/Firefox.app/Contents/MacOS/firefox"));
            v.push(String::from_str("/Applications/LibreWolf.app/Contents/MacOS/librewolf"));
            v.push(String::from_str("/Applications/Waterfox.app/Contents/MacOS/waterfox"));
            v.push(String::from_str("/Applications/Zen Browser.app/Contents/MacOS/zen-browser"));
        },
        Os::Windows => {
            let pf = program_files_dir(env);
            let pf86 = program_files_x86_dir(env);
            v.push(pf.clone().concat("\\Mozilla Firefox\\firefox.exe"));
            v.push(pf.clone().concat("\\LibreWolf\\librewolf.exe"));
            v.push(pf.clone().concat("\\Waterfox\\waterfox.exe"));
            v.push(pf.clone().concat("\\Zen Browser\\zen-browser.exe"));
            v.push(pf86.clone().concat("\\Mozilla Firefox\\firefox.exe"));
            v.push(pf86.clone().concat("\\LibreWolf\\librewolf.exe"));
            v.push(pf86.clone().concat("\\Waterfox\\waterfox.exe"));
            v.push(pf86.clone().concat("\\Zen Browser\\zen-browser.exe"));
        },
    }
    proof {
        assert(views_of(v@) =~~= spec_browser_binary_candidates(os, *env));
    }
    v
}

/// Probes the well-known locations and returns the first binary that
/// exists on disk, if any. Which one answers depends on the state of the
/// disk; the result is always drawn from the well-known table.
pub fn find_browser_binary(os: Os, env: &HostEnv) -> (r: Option<String>)
    ensures
        r matches Some(b) ==> spec_browser_binary_candidates(os, *env).contains(b@),
{
    let candidates = browser_binary_candidates(os, env);
    let n = candidates.len();
    for i in 0..n
        invariant
            n == candidates.len(),
            views_of(candidates@) == spec_browser_binary_candidates(os, *env),
    {
        if path_exists(&candidates[i]) {
            let b = candidates[i].clone();
            proof {
                let cs = spec_browser_binary_candidates(os, *env);
                assert(cs.contains(b@)) by {
                    assert(cs[i as int] == b@);
                }
            }
            return Some(b);
        }
    }
    None
}

/// Which binary the precedence rule selects before any existence check:
/// the configured override always wins; else the inspected parent
/// path; else a discovered well-known binary; else nothing.
pub open spec fn spec_selected_binary(
    config_binary: Option<Seq<char>>,
    parent: Result<Seq<char>, GetParentProcError>,
    discovered: Option<Seq<char>>,
) -> Option<Seq<char>> {
    match config_binary {
        Some(p) => Some(p),
        None => match parent {
            Ok(p) => Some(p),
            Err(_) => discovered,
        },
    }
}

/// The view of a parent-process inspection result.
pub open spec fn spec_view_parent_result(r: Result<String, GetParentProcError>) -> Result<
    Seq<char>,
    GetParentProcError,
> {
    match r {
        Ok(p) => Ok(p@),
        Err(e) => Err(e),
    }
}

/// Applies the selection rule to the three sources' results alone:
/// BinaryNotFound exactly when the rule yields nothing.
pub fn selected_binary_decision(
    config_binary: &Option<String>,
    parent: &Result<String, GetParentProcError>,
    discovered: Option<String>,
) -> (r: Result<String, ForkBrowserProcError>)
    ensures
        match spec_selected_binary(
            spec_view_opt(*config_binary),
            spec_view_parent_result(*parent),
            spec_view_opt(discovered),
        ) {
            Some(b) => r matches Ok(s) && s@ == b,
            None => r == Err::<String, ForkBrowserProcError>(
                ForkBrowserProcError::BinaryNotFound,
            ),
        },
{
    match config_binary {
        Some(p) => Ok(p.clone()),
        None => match parent {
            Ok(p) => Ok(p.clone()),
            Err(_) => match discovered {
                Some(b) => Ok(b),
                None => Err(ForkBrowserProcError::BinaryNotFound),
            },
        },
    }
}

/// Whether the selection outcome `r` is exactly what the selection rule
/// gives for the discovery result `d`, `d` itself drawn from the
/// well-known table.
pub open spec fn spec_selected_from(
    config: Config,
    parent: Result<String, GetParentProcError>,
    os: Os,
    env: HostEnv,
    d: Option<Seq<char>>,
    r: Result<String, ForkBrowserProcError>,
) -> bool {
    &&& match d {
        Some(a) => spec_browser_binary_candidates(os, env).contains(a),
        None => true,
    }
    &&& match spec_selected_binary(
        spec_view_opt(config.browser_binary),
        spec_view_parent_result(parent),
        d,
    ) {
        Some(b) => r matches Ok(s) && s@ == b,
        None => r == Err::<String, ForkBrowserProcError>(ForkBrowserProcError::BinaryNotFound),
    }
}

/// Whether the selection outcome agrees with the selection rule for
/// some well-known discovery result.
pub open spec fn spec_selection_agrees(
    config: Config,
    parent: Result<String, GetParentProcError>,
    os: Os,
    env: HostEnv,
    r: Result<String, ForkBrowserProcError>,
) -> bool {
    exists|d: Option<Seq<char>>| #[trigger] spec_selected_from(config, parent, os, env, d, r)
}

/// Selects the binary to launch, in precedence order: the configured
/// override (its existence is not checked at this stage), the inspected
/// parent path, then the first existing well-known location. The
/// outcome is the selection rule applied to what discovery found.
pub fn select_browser_binary(
    config: &Config,
    parent: &Result<String, GetParentProcError>,
    os: Os,
    env: &HostEnv,
) -> (r: Result<String, ForkBrowserProcError>)
    ensures
        config.browser_binary matches Some(p) ==> r matches Ok(b) && b@ == p@,
        config.browser_binary is None ==> (*parent matches Ok(p) ==> r matches Ok(b) && b@
            == p@),
        r matches Ok(b) ==> ((config.browser_binary is None && *parent is Err)
            ==> spec_browser_binary_candidates(os, *env).contains(b@)),
        r matches Err(e) ==> e is BinaryNotFound && config.browser_binary is None
            && *parent is Err,
        spec_selection_agrees(*config, *parent, os, *env, r),
{
    let discovered = match &config.browser_binary {
        Some(_) => None,
        None => match parent {
            Ok(_) => None,
            Err(_) => find_browser_binary(os, env),
        },
    };
    let ghost d = spec_view_opt(discovered);
    let r = selected_binary_decision(&config.browser_binary, parent, discovered);
    proof {
        assert(spec_selected_from(*config, *parent, os, *env, d, r));
        assert(spec_selection_agrees(*config, *parent, os, *env, r));
    }
    r
}

/// Which binary a launch may use once existence is probed: the selected
/// binary where it exists, else an existing alternative from the
/// well-known table, else the launch fails with BinaryDoesNotExist —
/// never BinaryNotFound, since a candidate was identified.
pub open spec fn spec_validated_binary(
    selected: Seq<char>,
    selected_exists: bool,
    alternative: Option<Seq<char>>,
    alternative_exists: bool,
) -> Result<Seq<char>, ForkBrowserProcError> {
    if selected_exists {
        Ok(selected)
    } else {
        match alternative {
            Some(a) => if alternative_exists {
                Ok(a)
            } else {
                Err(ForkBrowserProcError::BinaryDoesNotExist)
            },
            None => Err(ForkBrowserProcError::BinaryDoesNotExist),
        }
    }
}

/// Applies the validation rule to the probed results alone: the
/// selected binary where its probe succeeded, else an existing
/// alternative, else BinaryDoesNotExist — never BinaryNotFound, since a
/// candidate was identified.
pub fn validated_binary(
    selected: String,
    selected_exists: bool,
    alternative: Option<String>,
    alternative_exists: bool,
) -> (r: Result<String, ForkBrowserProcError>)
    ensures
        match spec_validated_binary(
            selected@,
            selected_exists,
            spec_view_opt(alternative),
            alternative_exists,
        ) {
            Ok(b) => r matches Ok(s) && s@ == b,
            Err(e) => r matches Err(e2) && e2 == e,
        },
{
    if selected_exists {
        Ok(selected)
    } else {
        match alternative {
            Some(a) => if alternative_exists {
                Ok(a)
            } else {
                Err(ForkBrowserProcError::BinaryDoesNotExist)
            },
            None => Err(ForkBrowserProcError::BinaryDoesNotExist),
        }
    }
}

/// A configured binary path that does not exist, together with a
/// well-known-table path that does, still launches: the precedence rule
/// selects the configured path, validation falls back to the existing
/// alternative, and the outcome is that alternative — in particular it
/// is never the BinaryNotFound failure.
pub proof fn lemma_configured_missing_uses_wellknown(
    cfg: Seq<char>,
    parent: Result<Seq<char>, GetParentProcError>,
    discovered: Option<Seq<char>>,
    alt: Seq<char>,
)
    ensures
        spec_selected_binary(Some(cfg), parent, discovered) == Some(cfg),
        spec_validated_binary(cfg, false, Some(alt), true) == Ok::<
            Seq<char>,
            ForkBrowserProcError,
        >(alt),
        !(spec_validated_binary(cfg, false, Some(alt), true) matches Err(e)
            && e is BinaryNotFound),
{
}

/// What the embedding process must do to launch the browser.
#[derive(Debug)]
pub enum LaunchCommand {
    /// Spawn `binary` with `args`, detached from this process's session
    /// or job.
    Spawn { binary: String, args: Vec<String> },
    /// Activate the store package `aumid` with the serialized,
    /// quote-escaped argument string `arg_string`.
    MsixActivate { aumid: String, arg_string: String },
}

/// Whether `b` is a binary the selection rule can have produced.
pub open spec fn spec_plausible_spawn_binary(
    config: Config,
    parent: Result<String, GetParentProcError>,
    os: Os,
    env: HostEnv,
    b: Seq<char>,
) -> bool {
    ||| config.browser_binary matches Some(p) && b == p@
    ||| parent matches Ok(p) && b == p@
    ||| spec_browser_binary_candidates(os, env).contains(b)
}

/// Whether `r` is the activation command for package `pkg` with the
/// serialized arguments for `profile_name` and `url`.
pub open spec fn spec_is_msix_command(
    r: Result<LaunchCommand, ForkBrowserProcError>,
    pkg: Seq<char>,
    profile_name: Seq<char>,
    url: Option<Seq<char>>,
) -> bool {
    match r {
        Ok(c) => match c {
            LaunchCommand::MsixActivate { aumid, arg_string } => aumid@ == pkg + "!App"@
                && arg_string@ == spec_serialize_args(spec_browser_args(profile_name, url)),
            _ => false,
        },
        Err(_) => false,
    }
}

/// Whether `r` is a spawn command with the plain argument list for
/// `profile_name` and `url` and a binary the selection rule can have
/// produced.
pub open spec fn spec_is_spawn_command(
    r: Result<LaunchCommand, ForkBrowserProcError>,
    config: Config,
    parent: Result<String, GetParentProcError>,
    os: Os,
    env: HostEnv,
    profile_name: Seq<char>,
    url: Option<Seq<char>>,
) -> bool {
    match r {
        Ok(c) => match c {
            LaunchCommand::Spawn { binary, args } => views_of(args@) == spec_browser_args(
                profile_name,
                url,
            ) && spec_plausible_spawn_binary(config, parent, os, env, binary@),
            _ => false,
        },
        Err(_) => false,
    }
}

/// Whether `r` is a spawn command whose binary is exactly `binary`,
/// with the plain argument list for `profile_name` and `url`.
pub open spec fn spec_is_spawn_command_for(
    r: Result<LaunchCommand, ForkBrowserProcError>,
    binary: Seq<char>,
    profile_name: Seq<char>,
    url: Option<Seq<char>>,
) -> bool {
    match r {
        Ok(c) => match c {
            LaunchCommand::Spawn { binary: b, args } => b@ == binary && views_of(args@)
                == spec_browser_args(profile_name, url),
            _ => false,
        },
        Err(_) => false,
    }
}

/// Whether the planner's outcome `r` is exactly what the selection and
/// validation rules give for the probe results `selected_exists` and
/// `alternative_exists`: the selected binary obeys the precedence rule,
/// the alternative is drawn from the well-known table and consulted
/// only after the selected binary's probe failed, and the command or
/// failure is the validated binary with the plain argument list.
pub open spec fn spec_planned_from_probes(
    config: Config,
    parent: Result<String, GetParentProcError>,
    os: Os,
    env: HostEnv,
    profile_name: Seq<char>,
    url: Option<Seq<char>>,
    selected: Seq<char>,
    selected_exists: bool,
    alternative: Option<Seq<char>>,
    alternative_exists: bool,
    r: Result<LaunchCommand, ForkBrowserProcError>,
) -> bool {
    &&& spec_plausible_spawn_binary(config, parent, os, env, selected)
    &&& (config.browser_binary matches Some(p) ==> selected == p@)
    &&& (config.browser_binary is None ==> (parent matches Ok(p) ==> selected == p@))
    &&& match alternative {
        Some(a) => spec_browser_binary_candidates(os, env).contains(a),
        None => true,
    }
    &&& (selected_exists ==> alternative is None)
    &&& match spec_validated_binary(selected, selected_exists, alternative, alternative_exists) {
        Ok(b) => spec_is_spawn_command_for(r, b, profile_name, url),
        Err(e) => r matches Err(e2) && e2 == e,
    }
}

/// Whether the planner's outcome agrees with the selection and
/// validation rules for some selected binary and probe results.
pub open spec fn spec_plan_agrees_with_probes(
    config: Config,
    parent: Result<String, GetParentProcError>,
    os: Os,
    env: HostEnv,
    profile_name: Seq<char>,
    url: Option<Seq<char>>,
    r: Result<LaunchCommand, ForkBrowserProcError>,
) -> bool {
    exists|
        selected: Seq<char>,
        selected_exists: bool,
        alternative: Option<Seq<char>>,
        alternative_exists: bool,
    |
        #[trigger] spec_planned_from_probes(
            config,
            parent,
            os,
            env,
            profile_name,
            url,
            selected,
            selected_exists,
            alternative,
            alternative_exists,
            r,
        )
}

/// Whether `r` is the no-candidate failure.
pub open spec fn spec_is_binary_not_found(
    r: Result<LaunchCommand, ForkBrowserProcError>,
) -> bool {
    r matches Err(e) && e is BinaryNotFound
}

/// Plans a launch: on the packaged-install path, the activation command
/// with serialized arguments; otherwise the selected and validated
/// binary with the plain argument list.
pub fn plan_browser_launch(
    config: &Config,
    parent: &Result<String, GetParentProcError>,
    msix_package: &Result<String, String>,
    os: Os,
    env: &HostEnv,
    profile_name: &String,
    url: Option<String>,
) -> (r: Result<LaunchCommand, ForkBrowserProcError>)
    ensures
        os == Os::Windows ==> (*msix_package matches Ok(pkg) ==> spec_is_msix_command(
            r,
            pkg@,
            profile_name@,
            spec_view_opt(url),
        )),
        r is Ok && !(os == Os::Windows && *msix_package is Ok) ==> spec_is_spawn_command(
            r,
            *config,
            *parent,
            os,
            *env,
            profile_name@,
            spec_view_opt(url),
        ),
        r matches Err(e) ==> e is BinaryNotFound || e is BinaryDoesNotExist,
        r matches Err(e) && e is BinaryNotFound ==> config.browser_binary is None
            && *parent matches Err(_),
        config.browser_binary matches Some(_) ==> !(r matches Err(e) && e is BinaryNotFound),
        !(os == Os::Windows && *msix_package is Ok) && !spec_is_binary_not_found(r)
            ==> spec_plan_agrees_with_probes(
            *config,
            *parent,
            os,
            *env,
            profile_name@,
            spec_view_opt(url),
            r,
        ),
{
    let args = build_browser_args(profile_name, url);
    if os == Os::Windows {
        match msix_package {
            Ok(pkg) => {
                let serialized = serialize_browser_args(&args);
                let aumid = pkg.clone().concat("!App");
                return Ok(LaunchCommand::MsixActivate { aumid, arg_string: serialized });
            },
            Err(_) => {},
        }
    }
    let selected = match select_browser_binary(config, parent, os, env) {
        Ok(b) => b,
        Err(e) => {
            return Err(e);
        },
    };
    let ghost selected_view = selected@;
    let selected_exists = path_exists(&selected);
    let alternative = if selected_exists {
        None
    } else {
        find_browser_binary(os, env)
    };
    let ghost alternative_view = spec_view_opt(alternative);
    let alternative_exists = match &alternative {
        Some(a) => path_exists(a),
        None => false,
    };
    let r = match validated_binary(selected, selected_exists, alternative, alternative_exists) {
        Ok(binary) => Ok(LaunchCommand::Spawn { binary, args }),
        Err(e) => Err(e),
    };
    proof {
        assert(spec_planned_from_probes(
            *config,
            *parent,
            os,
            *env,
            profile_name@,
            spec_view_opt(url),
            selected_view,
            selected_exists,
            alternative_view,
            alternative_exists,
            r,
        ));
        assert(spec_plan_agrees_with_probes(
            *config,
            *parent,
            os,
            *env,
            profile_name@,
            spec_view_opt(url),
            r,
        ));
    }
    r
}

/// The immediate child's step that ended its part of the POSIX
/// detachment dance.
#[derive(Clone, Copy, Debug, PartialEq, Eq, Structural)]
pub enum ChildLaunchOutcome {
    /// The grandchild was spawned.
    Spawned,
    /// The spawn call failed.
    SpawnFailed,
    /// Becoming a session leader failed; no spawn was attempted.
    SessionDetachFailed,
}

/// The exit code the immediate child reports for its outcome.
pub open spec fn spec_child_exit_code(o: ChildLaunchOutcome) -> i32 {
    match o {
        ChildLaunchOutcome::Spawned => 0,
        ChildLaunchOutcome::SpawnFailed => 1,
        ChildLaunchOutcome::SessionDetachFailed => 2,
    }
}

/// Maps the immediate child's outcome to the exit code it reports to
/// the waiting parent: zero exactly when the browser was spawned.
pub fn posix_child_exit_code(o: ChildLaunchOutcome) -> (r: i32)
    ensures
        r == spec_child_exit_code(o),
        r == 0 <==> o == ChildLaunchOutcome::Spawned,
{
    match o {
        ChildLaunchOutcome::Spawned => 0,
        ChildLaunchOutcome::SpawnFailed => 1,
        ChildLaunchOutcome::SessionDetachFailed => 2,
    }
}

/// What the waiting parent observed of the immediate child.
#[derive(Clone, Debug, PartialEq, Eq)]
pub enum WaitOutcome {
    /// The immediate child exited with this code.
    Exited { code: i32 },
    /// The wait ended any other way: a signal, or the wait call failed.
    NotExited,
}

/// What the first process duplication came to.
#[derive(Clone, Debug, PartialEq, Eq)]
pub enum ForkOutcome {
    /// The duplication itself failed.
    Failed { error_message: String },
    /// The duplication succeeded and the parent waited on the immediate
    /// child.
    Forked { wait: WaitOutcome },
}

/// The launch result the POSIX strategy reports: success exactly when
/// the immediate child exited with code zero.
pub open spec fn spec_fork_launch_result(o: ForkOutcome) -> Result<(), ForkBrowserProcError> {
    match o {
        ForkOutcome::Failed { error_message } => Err(
            ForkBrowserProcError::ForkError { error_message },
        ),
        ForkOutcome::Forked { wait } => match wait {
            WaitOutcome::Exited { code } => if code == 0 {
                Ok(())
            } else {
                Err(ForkBrowserProcError::BadExitCode)
            },
            WaitOutcome::NotExited => Err(ForkBrowserProcError::BadExitCode),
        },
    }
}

/// Classifies what the POSIX detachment observed: a failed duplication
/// carries the underlying message, an immediate child that exited zero
/// is success, and anything else is BadExitCode.
pub fn interpret_fork_outcome(o: ForkOutcome) -> (r: Result<(), ForkBrowserProcError>)
    ensures
        r == spec_fork_launch_result(o),
{
    match o {
        ForkOutcome::Failed { error_message } => Err(
            ForkBrowserProcError::ForkError { error_message },
        ),
        ForkOutcome::Forked { wait } => match wait {
            WaitOutcome::Exited { code } => if code == 0 {
                Ok(())
            } else {
                Err(ForkBrowserProcError::BadExitCode)
            },
            WaitOutcome::NotExited => Err(ForkBrowserProcError::BadExitCode),
        },
    }
}

/// POSIX detachment reports success exactly for an immediate-child exit
/// code of zero; every other observation is a reported failure, never a
/// silent success.
pub proof fn lemma_fork_success_iff_exit_zero(o: ForkOutcome)
    ensures
        spec_fork_launch_result(o) is Ok <==> o matches ForkOutcome::Forked {
            wait: WaitOutcome::Exited { code: 0 },
        },
{
}

/// The launch result of the direct-spawn strategy: success is the spawn
/// call succeeding; a failed call wraps the underlying message.
pub fn interpret_spawn_outcome(spawn_error: Option<String>) -> (r: Result<
    (),
    ForkBrowserProcError,
>)
    ensures
        spawn_error matches Some(m) ==> r == Err::<(), ForkBrowserProcError>(
            ForkBrowserProcError::ProcessLaunchError { error_message: m },
        ),
        spawn_error is None ==> r == Ok::<(), ForkBrowserProcError>(()),
{
    match spawn_error {
        Some(m) => Err(ForkBrowserProcError::ProcessLaunchError { error_message: m }),
        None => Ok(()),
    }
}

/// What the packaged-install activation came to.
#[derive(Clone, Debug, PartialEq, Eq)]
pub enum MsixActivationOutcome {
    /// The application was activated.
    Activated,
    /// The activation service could not be instantiated.
    ComInstantiationFailed { error_message: String },
    /// The activation call itself failed.
    ActivationFailed { error_message: String },
}

/// Classifies the packaged-install activation: a service-instantiation
/// failure and an activation failure are distinct error kinds.
pub fn interpret_msix_outcome(o: MsixActivationOutcome) -> (r: Result<(), ForkBrowserProcError>)
    ensures
        o is Activated <==> r is Ok,
        o matches MsixActivationOutcome::ComInstantiationFailed { error_message } ==> r == Err::<
            (),
            ForkBrowserProcError,
        >(ForkBrowserProcError::COMError { error_message }),
        o matches MsixActivationOutcome::ActivationFailed { error_message } ==> r == Err::<
            (),
            ForkBrowserProcError,
        >(ForkBrowserProcError::MSIXProcessLaunchError { error_message }),
{
    match o {
        MsixActivationOutcome::Activated => Ok(()),
        MsixActivationOutcome::ComInstantiationFailed { error_message } => Err(
            ForkBrowserProcError::COMError { error_message },
        ),
        MsixActivationOutcome::ActivationFailed { error_message } => Err(
            ForkBrowserProcError::MSIXProcessLaunchError { error_message },
        ),
    }
}

} // verus!
