//! Configuration and profile-directory discovery: the operator's
//! overrides, the well-known per-family profile-root locations, and the
//! decoding of a store-package identity out of a browser binary path.

use vstd::prelude::*;
use crate::platform::Os;
use crate::text::{
    join_path, spec_join, split_on_char, spec_split, find_char, rfind_char, spec_find,
    spec_rfind, lemma_spec_find_props, lemma_spec_rfind_props, views_of,
};
use crate::sys::path_exists;

verus! {

/// The operator's configuration: an optional explicit profile-directory
/// root and an optional explicit browser binary, both overriding
/// discovery when present.
#[derive(Clone, Debug)]
pub struct Config {
    pub browser_profile_dir: Option<String>,
    pub browser_binary: Option<String>,
}

impl Config {
    /// The profile-directory root the override selects, else the
    /// discovered default.
    pub open spec fn spec_profile_dir(self, default_dir: Seq<char>) -> Seq<char> {
        match self.browser_profile_dir {
            Some(p) => p@,
            None => default_dir,
        }
    }

    /// The profile-directory root: the configured override where one is
    /// set, else the default handed in by the caller.
    pub fn browser_profile_dir(&self, default_dir: &String) -> (r: String)
        ensures
            r@ == self.spec_profile_dir(default_dir@),
    {
        match &self.browser_profile_dir {
            Some(p) => p.clone(),
            None => default_dir.clone(),
        }
    }

    /// The configured browser binary, where one is set. Its existence is
    /// not checked here: selection and validation are separate steps.
    pub fn browser_binary(&self) -> (r: &Option<String>)
        ensures
            r == &self.browser_binary,
    {
        &self.browser_binary
    }

    /// The path of the profile registry under the profile-directory root.
    pub fn profiles_ini_path(&self, os: Os, default_dir: &String) -> (r: String)
        ensures
            r@ == spec_join(self.spec_profile_dir(default_dir@), os, "profiles.ini"@),
    {
        let dir = self.browser_profile_dir(default_dir);
        join_path(&dir, os, "profiles.ini")
    }

    /// The path of the install registry under the profile-directory root.
    pub fn installs_ini_path(&self, os: Os, default_dir: &String) -> (r: String)
        ensures
            r@ == spec_join(self.spec_profile_dir(default_dir@), os, "installs.ini"@),
    {
        let dir = self.browser_profile_dir(default_dir);
        join_path(&dir, os, "installs.ini")
    }
}

impl Default for Config {
    /// A configuration with no overrides set.
    fn default() -> (r: Self)
        ensures
            r.browser_profile_dir is None,
            r.browser_binary is None,
    {
        Config { browser_profile_dir: None, browser_binary: None }
    }
}

/// Whether a directory is a plausible profile root: it holds a
/// `profiles.ini` registry. The answer depends on the state of the disk.
pub fn is_valid_browser_dir(dir: &String, os: Os) -> bool {
    let ini = join_path(dir, os, "profiles.ini");
    path_exists(&ini)
}

/// Whether a path component can stand before the segments of a rooted
/// path: empty (a leading separator) or a drive prefix.
pub open spec fn spec_root_marker(c: Seq<char>) -> bool {
    c.len() == 0 || c.last() == ':'
}

/// A path with every forward slash read as a backslash: the component
/// walk of a store path accepts either separator.
pub open spec fn spec_normalized_win_path(s: Seq<char>) -> Seq<char> {
    s.map_values(
        |c: char|
            if c == '/' {
                '\\'
            } else {
                c
            },
    )
}

/// Rewrites forward slashes to backslashes before a component walk.
fn normalize_win_path(p: &String) -> (r: String)
    ensures
        r@ == spec_normalized_win_path(p@),
{
    let n = p.as_str().unicode_len();
    let mut out = String::new();
    proof {
        assert(out@ =~= spec_normalized_win_path(p@.take(0)));
    }
    for i in 0..n
        invariant
            n == p@.len(),
            out@ == spec_normalized_win_path(p@.take(i as int)),
    {
        if p.as_str().get_char(i) == '/' {
            out.append("\\");
            proof {
                reveal_strlit("\\");
                assert("\\"@ =~= seq!['\\']);
                assert(out@ =~= spec_normalized_win_path(p@.take(i + 1)));
            }
        } else {
            let piece = p.as_str().substring_char(i, i + 1);
            out.append(piece);
            proof {
                assert(piece@ =~= seq![p@[i as int]]);
                assert(out@ =~= spec_normalized_win_path(p@.take(i + 1)));
            }
        }
    }
    proof {
        assert(p@.take(n as int) =~= p@);
    }
    out
}

/// The package identity encoded in a store-install binary path, if the
/// path has exactly that shape: under a root marker, a "Program Files"
/// segment, a "WindowsApps" segment, and a package folder
/// `<name>_<version>_<arch>__<publisher-id>`, of which the part before
/// the first underscore and the part after the last are kept, joined
/// with an underscore. Either separator opens a component.
pub open spec fn spec_msix_package(path: Seq<char>) -> Option<Seq<char>> {
    let comps = spec_split(spec_normalized_win_path(path), '\\');
    if comps.len() >= 4 && spec_root_marker(comps[0]) && comps[1] == "Program Files"@
        && comps[2] == "WindowsApps"@ {
        let pkg = comps[3];
        match (spec_find(pkg, '_'), spec_rfind(pkg, '_')) {
            (Some(i), Some(j)) => Some(pkg.take(i) + seq!['_'] + pkg.skip(j + 1)),
            _ => None,
        }
    } else {
        None
    }
}

/// Decodes the store-package identity from a browser binary path, or
/// reports that the path is not shaped like a packaged install.
pub fn compute_msix_package(path: &String) -> (r: Result<String, String>)
    ensures
        match spec_msix_package(path@) {
            Some(p) => r matches Ok(s) && s@ == p,
            None => r matches Err(m) && m@ == "Browser path is not in MSIX format"@,
        },
{
    let ghost comps_spec = spec_split(spec_normalized_win_path(path@), '\\');
    let normalized = normalize_win_path(path);
    let comps = split_on_char(&normalized, '\\');
    proof {
        assert(comps@.len() == comps_spec.len());
    }
    if comps.len() >= 4 {
        let c0 = &comps[0];
        let n0 = c0.as_str().unicode_len();
        let rooted = n0 == 0 || c0.as_str().get_char(n0 - 1) == ':';
        proof {
            assert(c0@ == comps_spec[0]);
            assert(rooted == spec_root_marker(comps_spec[0]));
        }
        let program_files = String::from_str("Program Files");
        let windows_apps = String::from_str("WindowsApps");
        if rooted && comps[1].eq(&program_files) && comps[2].eq(&windows_apps) {
            proof {
                assert(comps@[1]@ == comps_spec[1]);
                assert(comps@[2]@ == comps_spec[2]);
            }
            let pkg = &comps[3];
            proof {
                assert(pkg@ == comps_spec[3]);
                lemma_spec_find_props(pkg@, '_');
                lemma_spec_rfind_props(pkg@, '_');
            }
            if let Some(i) = find_char(pkg.as_str(), '_') {
                let j = match rfind_char(pkg.as_str(), '_') {
                    Some(j) => j,
                    None => {
                        proof {
                            assert(false);
                        }
                        0
                    },
                };
                let n = pkg.as_str().unicode_len();
                let head = String::from_str(pkg.as_str().substring_char(0, i));
                let tail = pkg.as_str().substring_char(j + 1, n);
                let out = head.concat("_").concat(tail);
                proof {
                    reveal_strlit("_");
                    assert("_"@ =~= seq!['_']);
                    assert(spec_find(pkg@, '_') == Some(i as int));
                    assert(spec_rfind(pkg@, '_') == Some(j as int));
                    assert(out@ == pkg@.take(i as int) + seq!['_'] + pkg@.skip(j + 1));
                }
                return Ok(out);
            }
        }
    }
    Err(String::from_str("Browser path is not in MSIX format"))
}

/// The well-known profile-root locations probed for this family, in
/// precedence order.
pub open spec fn spec_default_profile_dir_candidates(
    os: Os,
    home: Seq<char>,
    msix: Result<String, String>,
) -> Seq<Seq<char>> {
    match os {
        Os::Linux => seq![
            spec_join(home, os, ".var/app/org.mozilla.firefox/.mozilla/firefox"@),
            spec_join(home, os, ".var/app/io.gitlab.librewolf-community/.librewolf"@),
            spec_join(home, os, ".var/app/net.waterfox.waterfox/.waterfox"@),
            spec_join(home, os, ".var/app/org.mozilla.firefox.zen/.zen-browser"@),
            spec_join(home, os, ".mozilla/firefox"@),
            spec_join(home, os, ".firefox"@),
            spec_join(home, os, ".mozilla/librewolf"@),
            spec_join(home, os, ".librewolf"@),
            spec_join(home, os, ".mozilla/waterfox"@),
            spec_join(home, os, ".waterfox"@),
            spec_join(home, os, ".mozilla/zen-browser"@),
            spec_join(home, os, ".zen-browser"@),
        ],
        Os::MacOs => seq![
            spec_join(home, os, "Library/Application Support/Firefox"@),
            spec_join(home, os, "Library/Application Support/Librewolf"@),
            spec_join(home, os, "Library/Application Support/Waterfox"@),
            spec_join(home, os, "Library/Application Support/Zen-browser"@),
        ],
        Os::Windows => {
            let root = spec_windows_mozilla_root(home, msix);
            seq![
                spec_join(root, os, "Firefox"@),
                spec_join(root, os, "Librewolf"@),
                spec_join(root, os, "Waterfox"@),
                spec_join(root, os, "Zen-browser"@),
            ]
        },
    }
}

/// The Mozilla data root on the packaged-install family: inside the
/// package's local cache for a store install, else under the roaming
/// application data.
pub open spec fn spec_windows_mozilla_root(
    home: Seq<char>,
    msix: Result<String, String>,
) -> Seq<char> {
    match msix {
        Ok(pkg) => spec_join(
            spec_join(
                spec_join(home, Os::Windows, "AppData\\Local\\Packages"@),
                Os::Windows,
                pkg@,
            ),
            Os::Windows,
            "LocalCache\\Roaming\\Mozilla"@,
        ),
        Err(_) => spec_join(home, Os::Windows, "AppData\\Roaming\\Mozilla"@),
    }
}

/// The profile root assumed when no well-known location answers.
pub open spec fn spec_default_profile_dir_fallback(
    os: Os,
    home: Seq<char>,
    msix: Result<String, String>,
) -> Seq<char> {
    match os {
        Os::Linux => spec_join(home, os, ".mozilla/firefox"@),
        Os::MacOs => spec_join(home, os, "Library/Application Support/Firefox"@),
        Os::Windows => spec_join(spec_windows_mozilla_root(home, msix), os, "Firefox"@),
    }
}

fn windows_mozilla_root(home: &String, msix: &Result<String, String>) -> (r: String)
    ensures
        r@ == spec_windows_mozilla_root(home@, *msix),
{
    match msix {
        Ok(pkg) => {
            let a = join_path(home, Os::Windows, "AppData\\Local\\Packages");
            let b = join_path(&a, Os::Windows, pkg.as_str());
            join_path(&b, Os::Windows, "LocalCache\\Roaming\\Mozilla")
        },
        Err(_) => join_path(home, Os::Windows, "AppData\\Roaming\\Mozilla"),
    }
}

/// Builds the probe list of well-known profile-root locations.
pub fn default_profile_dir_candidates(
    os: Os,
    home: &String,
    msix: &Result<String, String>,
) -> (r: Vec<String>)
    ensures
        views_of(r@) == spec_default_profile_dir_candidates(os, home@, *msix),
{
    let mut v: Vec<String> = Vec::new();
    match os {
        Os::Linux => {
            v.push(join_path(home, os, ".var/app/org.mozilla.firefox/.mozilla/firefox"));
            v.push(join_path(home, os, ".var/app/io.gitlab.librewolf-community/.librewolf"));
            v.push(join_path(home, os, ".var/app/net.waterfox.waterfox/.waterfox"));
            v.push(join_path(home, os, ".var/app/org.mozilla.firefox.zen/.zen-browser"));
            v.push(join_path(home, os, ".mozilla/firefox"));
            v.push(join_path(home, os, ".firefox"));
            v.push(join_path(home, os, ".mozilla/librewolf"));
            v.push(join_path(home, os, ".librewolf"));
            v.push(join_path(home, os, ".mozilla/waterfox"));
            v.push(join_path(home, os, ".waterfox"));
            v.push(join_path(home, os, ".mozilla/zen-browser"));
            v.push(join_path(home, os, ".zen-browser"));
        },
        Os::MacOs => {
            v.push(join_path(home, os, "Library/Application Support/Firefox"));
            v.push(join_path(home, os, "Library/Application Support/Librewolf"));
            v.push(join_path(home, os, "Library/Application Support/Waterfox"));
            v.push(join_path(home, os, "Library/Application Support/Zen-browser"));
        },
        Os::Windows => {
            let root = windows_mozilla_root(home, msix);
            v.push(join_path(&root, os, "Firefox"));
            v.push(join_path(&root, os, "Librewolf"));
            v.push(join_path(&root, os, "Waterfox"));
            v.push(join_path(&root, os, "Zen-browser"));
        },
    }
    proof {
        assert(views_of(v@) =~~= spec_default_profile_dir_candidates(os, home@, *msix));
    }
    v
}

/// The fallback profile root for this family.
pub fn default_profile_dir_fallback(
    os: Os,
    home: &String,
    msix: &Result<String, String>,
) -> (r: String)
    ensures
        r@ == spec_default_profile_dir_fallback(os, home@, *msix),
{
    match os {
        Os::Linux => join_path(home, os, ".mozilla/firefox"),
        Os::MacOs => join_path(home, os, "Library/Application Support/Firefox"),
        Os::Windows => {
            let root = windows_mozilla_root(home, msix);
            join_path(&root, os, "Firefox")
        },
    }
}

/// The default profile-directory root for a user with home directory
/// `home`: the first well-known location that holds a profile registry,
/// else the family's fallback location. Which location answers depends
/// on the state of the disk; the result is always drawn from the
/// well-known table or the fallback.
pub fn get_default_browser_profile_folder(
    os: Os,
    home: &String,
    msix: &Result<String, String>,
) -> (r: String)
    ensures
        spec_default_profile_dir_candidates(os, home@, *msix).contains(r@) || r@
            == spec_default_profile_dir_fallback(os, home@, *msix),
{
    let candidates = default_profile_dir_candidates(os, home, msix);
    let n = candidates.len();
    for i in 0..n
        invariant
            n == candidates.len(),
            views_of(candidates@) == spec_default_profile_dir_candidates(os, home@, *msix),
    {
        if is_valid_browser_dir(&candidates[i], os) {
            let found = candidates[i].clone();
            proof {
                assert(spec_default_profile_dir_candidates(os, home@, *msix)[i as int]
                    == found@);
            }
            return found;
        }
    }
    default_profile_dir_fallback(os, home, msix)
}

/// Whether `dir` is a location the default-folder discovery can yield
/// for some home directory.
pub open spec fn is_possible_default_dir(
    os: Os,
    home: Seq<char>,
    msix: Result<String, String>,
    dir: Seq<char>,
) -> bool {
    spec_default_profile_dir_candidates(os, home, msix).contains(dir) || dir
        == spec_default_profile_dir_fallback(os, home, msix)
}

/// Whether `dir` is a location the default-folder discovery can yield
/// under some home directory.
pub open spec fn is_possible_default_dir_some_home(
    os: Os,
    msix: Result<String, String>,
    dir: Seq<char>,
) -> bool {
    exists|h: Seq<char>| #[trigger] is_possible_default_dir(os, h, msix, dir)
}

/// Asks the operating system for the user's home directory and discovers
/// the default profile-directory root under it; nothing where no home
/// directory is known.
pub fn discover_default_browser_profile_folder(
    os: Os,
    msix: &Result<String, String>,
) -> (r: Option<String>)
    ensures
        r matches Some(d) ==> is_possible_default_dir_some_home(os, *msix, d@),
{
    match crate::sys::user_home_dir() {
        Some(home) => {
            let d = get_default_browser_profile_folder(os, &home, msix);
            proof {
                assert(is_possible_default_dir(os, home@, *msix, d@));
                assert(is_possible_default_dir_some_home(os, *msix, d@));
            }
            Some(d)
        },
        None => None,
    }
}

} // verus!
