//! Paths of the launcher's files, written as text and joined the way
//! `PathBuf::push` joins components on Unix.
use vstd::prelude::*;

use crate::text::chars_of;

verus! {

/// `base` followed by `part`: an absolute `part` replaces `base`, and a `/`
/// goes between them unless `base` is empty or already ends with one.
pub open spec fn joined(base: Seq<char>, part: Seq<char>) -> Seq<char> {
    if part.len() > 0 && part[0] == '/' {
        part
    } else if base.len() == 0 || base.last() == '/' {
        base + part
    } else {
        base + seq!['/'] + part
    }
}

/// The home directory that the launcher uses: `$HOME`, or `/root` when it
/// is unset or not Unicode.
pub open spec fn home_or_root(home: Option<Seq<char>>) -> Seq<char> {
    match home {
        Some(h) => h,
        None => "/root"@,
    }
}

/// The home directory given by the environment as a view.
pub open spec fn home_view(home: Option<&str>) -> Option<Seq<char>> {
    match home {
        Some(h) => Some(h@),
        None => None,
    }
}

/// `~/.hipfire-arwaky`.
pub open spec fn spec_arwaky_dir(home: Option<Seq<char>>) -> Seq<char> {
    joined(home_or_root(home), ".hipfire-arwaky"@)
}

/// Joins the path component `part` to `base`.
pub fn join_path(base: &str, part: &str) -> (r: String)
    ensures
        r@ == joined(base@, part@),
{
    let b = chars_of(base);
    let p = chars_of(part);
    if p.len() > 0 && p[0] == '/' {
        String::from_str(part)
    } else if b.len() == 0 || b[b.len() - 1] == '/' {
        let mut r = String::from_str(base);
        r.append(part);
        r
    } else {
        let mut r = String::from_str(base);
        let slash = "/";
        proof {
            reveal_strlit("/");
        }
        r.append(slash);
        r.append(part);
        r
    }
}

/// The home directory: `home` when given, else `/root`.
pub fn home_or_default(home: Option<&str>) -> (r: String)
    ensures
        r@ == home_or_root(home_view(home)),
{
    match home {
        Some(h) => String::from_str(h),
        None => String::from_str("/root"),
    }
}

/// The launcher's own directory, `~/.hipfire-arwaky`, given the value of
/// `$HOME`.
pub fn hipfire_arwaky_dir(home: Option<&str>) -> (r: String)
    ensures
        r@ == spec_arwaky_dir(home_view(home)),
{
    let h = home_or_default(home);
    join_path(h.as_str(), ".hipfire-arwaky")
}

/// The configuration file, `~/.hipfire-arwaky/config.json`.
pub fn config_path(home: Option<&str>) -> (r: String)
    ensures
        r@ == joined(spec_arwaky_dir(home_view(home)), "config.json"@),
{
    let d = hipfire_arwaky_dir(home);
    join_path(d.as_str(), "config.json")
}

/// The directory of downloaded models, `~/.hipfire-arwaky/models`.
pub fn models_dir(home: Option<&str>) -> (r: String)
    ensures
        r@ == joined(spec_arwaky_dir(home_view(home)), "models"@),
{
    let d = hipfire_arwaky_dir(home);
    join_path(d.as_str(), "models")
}

/// Where the upstream hipfire command is installed: `~/.hipfire/bin/hipfire`.
pub fn upstream_hipfire_bin_path(home: Option<&str>) -> (r: String)
    ensures
        r@ == joined(
            joined(joined(home_or_root(home_view(home)), ".hipfire"@), "bin"@),
            "hipfire"@,
        ),
{
    let h = home_or_default(home);
    let a = join_path(h.as_str(), ".hipfire");
    let b = join_path(a.as_str(), "bin");
    join_path(b.as_str(), "hipfire")
}

/// The upstream hipfire command when it is installed: its path when
/// `installed` (the path exists), else `None`.
pub fn upstream_hipfire_bin(home: Option<&str>, installed: bool) -> (r: Option<String>)
    ensures
        installed ==> (r matches Some(p) && p@ == joined(
            joined(joined(home_or_root(home_view(home)), ".hipfire"@), "bin"@),
            "hipfire"@,
        )),
        !installed ==> r is None,
{
    if installed {
        Some(upstream_hipfire_bin_path(home))
    } else {
        None
    }
}

/// Law: the launcher's directory is `.hipfire-arwaky` inside `$HOME`, or
/// inside `/root` when `$HOME` is unset; and the upstream command is
/// `.hipfire/bin/hipfire` inside the same home.
pub proof fn law_dirs_under_home(h: Seq<char>)
    requires
        h.len() > 0,
        h.last() != '/',
    ensures
        spec_arwaky_dir(Some(h)) == h + "/.hipfire-arwaky"@,
        spec_arwaky_dir(None) == "/root/.hipfire-arwaky"@,
        joined(joined(joined(home_or_root(Some(h)), ".hipfire"@), "bin"@), "hipfire"@) == h
            + "/.hipfire/bin/hipfire"@,
{
    reveal_strlit(".hipfire-arwaky");
    reveal_strlit("/.hipfire-arwaky");
    reveal_strlit("/root");
    reveal_strlit("/root/.hipfire-arwaky");
    reveal_strlit(".hipfire");
    reveal_strlit("bin");
    reveal_strlit("hipfire");
    reveal_strlit("/.hipfire/bin/hipfire");
    assert(".hipfire-arwaky"@ =~= seq!['.', 'h', 'i', 'p', 'f', 'i', 'r', 'e', '-', 'a', 'r', 'w', 'a', 'k', 'y']);
    assert("/.hipfire-arwaky"@ =~= seq!['/'] + ".hipfire-arwaky"@);
    assert("/root"@ =~= seq!['/', 'r', 'o', 'o', 't']);
    assert("/root/.hipfire-arwaky"@ =~= "/root"@ + "/.hipfire-arwaky"@);
    assert(h + "/.hipfire-arwaky"@ =~= h + seq!['/'] + ".hipfire-arwaky"@);
    assert(".hipfire"@ =~= seq!['.', 'h', 'i', 'p', 'f', 'i', 'r', 'e']);
    assert("bin"@ =~= seq!['b', 'i', 'n']);
    assert("hipfire"@ =~= seq!['h', 'i', 'p', 'f', 'i', 'r', 'e']);
    assert("/.hipfire/bin/hipfire"@ =~= seq!['/'] + ".hipfire"@ + seq!['/'] + "bin"@ + seq!['/']
        + "hipfire"@);
    let a = h + seq!['/'] + ".hipfire"@;
    assert(joined(h, ".hipfire"@) == a);
    let b = a + seq!['/'] + "bin"@;
    assert(joined(a, "bin"@) == b);
    assert(joined(b, "hipfire"@) == b + seq!['/'] + "hipfire"@);
    assert(b + seq!['/'] + "hipfire"@ =~= h + "/.hipfire/bin/hipfire"@);
}

/// Law: the configuration file and the models directory lie directly
/// inside the launcher's directory, whatever `$HOME` holds.
pub proof fn law_files_inside_arwaky_dir(home: Option<Seq<char>>)
    ensures
        joined(spec_arwaky_dir(home), "config.json"@) == spec_arwaky_dir(home) + seq!['/']
            + "config.json"@,
        joined(spec_arwaky_dir(home), "models"@) == spec_arwaky_dir(home) + seq!['/']
            + "models"@,
{
    reveal_strlit(".hipfire-arwaky");
    reveal_strlit("config.json");
    reveal_strlit("models");
    let d = spec_arwaky_dir(home);
    let h = home_or_root(home);
    assert(d.last() == 'y');
}

} // verus!
