//! The build tool's decisions: which crates to patch, where each one's
//! copies and patch files lie, what to do with an existing copy, the
//! `git apply` command line, the answer that confirms a deletion, and the
//! status line of each crate.
use vstd::prelude::*;

use crate::cli::texts;
use crate::paths::{join_path, joined};
use crate::text::{all_white_space, decimal, law_trim_surrounding, to_decimal, trim_chars, trimmed};

verus! {

/// The crates that running Qwen3.5 on RDNA2 needs, in patching order.
pub open spec fn essential_crate_names() -> Seq<Seq<char>> {
    seq![
        "hip-bridge"@,
        "rdna-compute"@,
        "hipfire-dispatch"@,
        "hipfire-runtime"@,
        "hipfire-arch-qwen35"@,
        "hipfire-quantize"@,
        "hipfire-detect"@,
        "hipfire-atlas"@,
        "hipfire-tui"@,
    ]
}

/// The crates that running Qwen3.5 on RDNA2 needs.
pub fn essential_crates() -> (r: Vec<String>)
    ensures
        texts(r@) == essential_crate_names(),
{
    let mut r: Vec<String> = Vec::new();
    r.push(String::from_str("hip-bridge"));
    r.push(String::from_str("rdna-compute"));
    r.push(String::from_str("hipfire-dispatch"));
    r.push(String::from_str("hipfire-runtime"));
    r.push(String::from_str("hipfire-arch-qwen35"));
    r.push(String::from_str("hipfire-quantize"));
    r.push(String::from_str("hipfire-detect"));
    r.push(String::from_str("hipfire-atlas"));
    r.push(String::from_str("hipfire-tui"));
    assert(texts(r@) =~= essential_crate_names());
    r
}

/// The crates that `patch` works on: those asked for, or else every
/// essential crate.
pub fn target_crates(crates: Option<Vec<String>>) -> (r: Vec<String>)
    ensures
        texts(r@) == match crates {
            Some(c) => texts(c@),
            None => essential_crate_names(),
        },
{
    match crates {
        Some(c) => c,
        None => essential_crates(),
    }
}

/// The three directories the build tool works with: the links to the
/// upstream crates, their patched copies, and the patch files.
pub struct XtaskDirs {
    pub crates: String,
    pub local_patched: String,
    pub patches: String,
}

/// The directories as the working directory names them.
pub fn relative_dirs() -> (r: XtaskDirs)
    ensures
        r.crates@ == "crates"@,
        r.local_patched@ == "local-patched"@,
        r.patches@ == "patches"@,
{
    XtaskDirs {
        crates: String::from_str("crates"),
        local_patched: String::from_str("local-patched"),
        patches: String::from_str("patches"),
    }
}

/// Where one crate lies in each of the three directories: its link to
/// upstream, its patched copy, and its patch files.
pub fn crate_locations(dirs: &XtaskDirs, krate: &str) -> (r: XtaskDirs)
    ensures
        r.crates@ == joined(dirs.crates@, krate@),
        r.local_patched@ == joined(dirs.local_patched@, krate@),
        r.patches@ == joined(dirs.patches@, krate@),
{
    XtaskDirs {
        crates: join_path(dirs.crates.as_str(), krate),
        local_patched: join_path(dirs.local_patched.as_str(), krate),
        patches: join_path(dirs.patches.as_str(), krate),
    }
}

/// What `patch` does about a crate's patched copy.
#[derive(Clone, Copy, Debug, PartialEq, Eq, Structural)]
pub enum CopyStep {
    /// There is no copy yet: make one.
    Copy,
    /// There is a copy and `--force` was given: remove it, then copy anew.
    ReplaceExisting,
    /// There is a copy and no `--force`: leave the crate alone.
    Skip,
}

/// What `patch` does about a crate's copy, given whether one exists and
/// whether `--force` was given.
pub fn copy_step(copy_exists: bool, force: bool) -> (r: CopyStep)
    ensures
        !copy_exists ==> r == CopyStep::Copy,
        copy_exists && force ==> r == CopyStep::ReplaceExisting,
        copy_exists && !force ==> r == CopyStep::Skip,
{
    if !copy_exists {
        CopyStep::Copy
    } else if force {
        CopyStep::ReplaceExisting
    } else {
        CopyStep::Skip
    }
}

/// The pattern of a crate's patch files: `<dir>/*.patch`.
pub fn patch_glob_pattern(dir: &str) -> (r: String)
    ensures
        r@ == dir@ + "/*.patch"@,
{
    let mut r = String::from_str(dir);
    r.append("/*.patch");
    r
}

/// The arguments of `git` that apply the patch file `patch` to the copy of
/// `krate`: `apply --directory <krate> <patch>`.
pub fn git_apply_args(krate: &str, patch: &str) -> (r: Vec<String>)
    ensures
        texts(r@) == seq!["apply"@, "--directory"@, krate@, patch@],
{
    let mut r: Vec<String> = Vec::new();
    r.push(String::from_str("apply"));
    r.push(String::from_str("--directory"));
    r.push(String::from_str(krate));
    r.push(String::from_str(patch));
    assert(texts(r@) =~= seq!["apply"@, "--directory"@, krate@, patch@]);
    r
}

/// Whether the answer to the deletion prompt confirms it: once trimmed of
/// white space it is `y` in either case.
pub open spec fn confirms_spec(input: Seq<char>) -> bool {
    trimmed(input) == seq!['y'] || trimmed(input) == seq!['Y']
}

/// Whether the answer `input` to "Delete ...? [y/N]" confirms it.
pub fn confirms_deletion(input: &str) -> (r: bool)
    ensures
        r == confirms_spec(input@),
{
    let t = trim_chars(input);
    if t.len() == 1 && (t[0] == 'y' || t[0] == 'Y') {
        assert(t@ =~= seq![t@[0]]);
        true
    } else {
        false
    }
}

/// Law: `y` or `Y` confirms a deletion whatever white space surrounds it.
pub proof fn law_confirmation_ignores_white_space(pre: Seq<char>, post: Seq<char>, upper: bool)
    requires
        all_white_space(pre),
        all_white_space(post),
    ensures
        confirms_spec(pre + seq![if upper { 'Y' } else { 'y' }] + post),
{
    let c = if upper {
        'Y'
    } else {
        'y'
    };
    law_trim_surrounding(pre, seq![c], post);
}

/// Law: an answer confirms a deletion only if, once trimmed, it is the
/// single letter `y` or `Y`; so an answer that trims to anything else, such
/// as `n`, `N`, `yes` or nothing, never confirms.
pub proof fn law_only_y_confirms(input: Seq<char>)
    ensures
        confirms_spec(input) ==> trimmed(input).len() == 1 && (trimmed(input)[0] == 'y'
            || trimmed(input)[0] == 'Y'),
        trimmed(input) == seq!['n'] || trimmed(input) == seq!['N'] || trimmed(input).len() != 1
            ==> !confirms_spec(input),
{
    let t = trimmed(input);
    if t == seq!['n'] || t == seq!['N'] {
        assert(t[0] != 'y' && t[0] != 'Y');
        assert(t != seq!['y']);
        assert(t != seq!['Y']);
    }
}

/// The line that `list` prints for a crate: three marks (its link to
/// upstream is there or missing; its patched copy is there or pending; it
/// has a patch directory or not), its name, and the number of its patch
/// files when it has a patch directory.
pub open spec fn list_line_spec(
    krate: Seq<char>,
    linked: bool,
    patched: bool,
    patch_count: Option<nat>,
) -> Seq<char> {
    let m1 = if linked {
        "✅"@
    } else {
        "❌"@
    };
    let m2 = if patched {
        "✅"@
    } else {
        "⏳"@
    };
    let m3 = if patch_count is Some {
        "🩹"@
    } else {
        "📂"@
    };
    let extra = match patch_count {
        Some(n) => "("@ + decimal(n) + " patches)"@,
        None => Seq::<char>::empty(),
    };
    "  "@ + m1 + " "@ + m2 + "  "@ + m3 + "  "@ + krate + "  "@ + extra
}

/// The line that `list` prints for `krate`; `patch_count` is the number of
/// its patch files when its patch directory exists.
pub fn list_line(krate: &str, linked: bool, patched: bool, patch_count: Option<usize>) -> (r:
    String)
    ensures
        r@ == list_line_spec(
            krate@,
            linked,
            patched,
            match patch_count {
                Some(n) => Some(n as nat),
                None => None,
            },
        ),
{
    let mut r = String::from_str("  ");
    if linked {
        r.append("✅");
    } else {
        r.append("❌");
    }
    r.append(" ");
    if patched {
        r.append("✅");
    } else {
        r.append("⏳");
    }
    r.append("  ");
    if patch_count.is_some() {
        r.append("🩹");
    } else {
        r.append("📂");
    }
    r.append("  ");
    r.append(krate);
    r.append("  ");
    match patch_count {
        Some(n) => {
            r.append("(");
            let d = to_decimal(n as u64);
            r.append(d.as_str());
            r.append(" patches)");
        },
        None => {},
    }
    assert(r@ =~= list_line_spec(
        krate@,
        linked,
        patched,
        match patch_count {
            Some(n) => Some(n as nat),
            None => None,
        },
    ));
    r
}

/// The architecture that `kernel-gen` targets: the one asked for, or else
/// `gfx1030`.
pub fn kernel_gen_arch(arch: Option<String>) -> (r: String)
    ensures
        r@ == match arch {
            Some(a) => a@,
            None => "gfx1030"@,
        },
{
    match arch {
        Some(a) => a,
        None => String::from_str("gfx1030"),
    }
}

} // verus!
