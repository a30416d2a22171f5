use hipfire_arwaky::xtask::{
    confirms_deletion, copy_step, crate_locations, essential_crates, git_apply_args,
    kernel_gen_arch, list_line, patch_glob_pattern, relative_dirs, target_crates,
    CopyStep,
};

#[test]
fn essential_crate_list() {
    let c = essential_crates();
    assert_eq!(c.len(), 9);
    assert_eq!(c[0], "hip-bridge");
    assert_eq!(c[4], "hipfire-arch-qwen35");
    assert_eq!(c[8], "hipfire-tui");
}

#[test]
fn target_crates_default_to_essential() {
    assert_eq!(target_crates(None), essential_crates());
    assert_eq!(
        target_crates(Some(vec!["hip-bridge".to_string()])),
        vec!["hip-bridge".to_string()]
    );
}

#[test]
fn crate_directories() {
    let d = relative_dirs();
    assert_eq!(d.crates, "crates");
    assert_eq!(d.local_patched, "local-patched");
    assert_eq!(d.patches, "patches");
    let r = crate_locations(&d, "hip-bridge");
    assert_eq!(r.local_patched, "local-patched/hip-bridge");
    assert_eq!(r.crates, "crates/hip-bridge");
    assert_eq!(r.patches, "patches/hip-bridge");
}

#[test]
fn copy_steps() {
    assert_eq!(copy_step(false, false), CopyStep::Copy);
    assert_eq!(copy_step(false, true), CopyStep::Copy);
    assert_eq!(copy_step(true, true), CopyStep::ReplaceExisting);
    assert_eq!(copy_step(true, false), CopyStep::Skip);
}

#[test]
fn patch_commands() {
    assert_eq!(patch_glob_pattern("/w/patches/x"), "/w/patches/x/*.patch");
    assert_eq!(
        git_apply_args("x", "/w/patches/x/a.patch"),
        vec!["apply", "--directory", "x", "/w/patches/x/a.patch"]
    );
}

#[test]
fn deletion_confirmation() {
    assert!(confirms_deletion("y\n"));
    assert!(confirms_deletion("  Y  "));
    assert!(!confirms_deletion("yes\n"));
    assert!(!confirms_deletion("\n"));
    assert!(!confirms_deletion("n"));
    for s in ["y", "Y\r\n", "yy", " y y", "\u{3000}y", "ÿ"] {
        let expected = s.trim().eq_ignore_ascii_case("y");
        assert_eq!(confirms_deletion(s), expected, "{:?}", s);
    }
}

#[test]
fn list_lines() {
    assert_eq!(
        list_line("hip-bridge", true, false, Some(2)),
        "  ✅ ⏳  🩹  hip-bridge  (2 patches)"
    );
    assert_eq!(list_line("hipfire-tui", false, true, None), "  ❌ ✅  📂  hipfire-tui  ");
}

#[test]
fn kernel_arch_default() {
    assert_eq!(kernel_gen_arch(None), "gfx1030");
    assert_eq!(kernel_gen_arch(Some("gfx1031".to_string())), "gfx1031");
}
