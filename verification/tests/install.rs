use evo_control::install::{
    dkms_package, install_driver, kmod_src_dir, kmod_version, systemd_unit_content, target_home,
    target_user, uninstall_driver, wireplumber_config_path, InstallStep, dkms_needs_add,
    is_kmod_src_dir_name,
};

#[test]
fn kmod_version_is_semver() {
    let v = kmod_version();
    assert!(v.chars().next().unwrap().is_ascii_digit(), "version must start with digit: {v}");
    assert!(v.contains('.'), "version must contain dots: {v}");
}

#[test]
fn kmod_src_dir_is_correct() {
    let dir = kmod_src_dir();
    assert!(std::path::Path::new(&dir).is_absolute());
    let s = dir.as_str();
    assert!(s.contains("/usr/src/evo-raw-"), "expected /usr/src/evo-raw-X.Y.Z, got {s}");
    assert!(s.ends_with(kmod_version()), "expected version suffix, got {s}");
}

#[test]
fn install_and_uninstall_steps() {
    assert_eq!(
        install_driver(),
        vec![
            InstallStep::CheckRoot,
            InstallStep::CheckKernelHeaders,
            InstallStep::EnsureDkms,
            InstallStep::WriteKmodSources,
            InstallStep::DkmsAddAndInstall,
            InstallStep::WriteUdevRules,
            InstallStep::WriteSystemdUnit,
            InstallStep::WriteWireplumberConfig,
            InstallStep::ReloadUdev,
            InstallStep::LoadModule,
            InstallStep::VerifyDevice,
        ]
    );
    assert_eq!(
        uninstall_driver(),
        vec![
            InstallStep::CheckRoot,
            InstallStep::UnloadModule,
            InstallStep::DkmsRemove,
            InstallStep::RemoveKmodSources,
            InstallStep::RemoveUdevRules,
            InstallStep::RemoveSystemdUnit,
            InstallStep::RemoveWireplumberConfig,
            InstallStep::ReloadUdev,
        ]
    );
}

#[test]
fn names_and_homes() {
    assert_eq!(kmod_src_dir(), "/usr/src/evo-raw-0.1.0");
    assert_eq!(dkms_package(), "evo-raw/0.1.0");
    assert_eq!(target_user(Some("alice".into()), Some("bob".into())), "alice");
    assert_eq!(target_user(None, Some("bob".into())), "bob");
    assert_eq!(target_user(None, None), "root");
    assert_eq!(target_home("root"), "/root");
    assert_eq!(target_home("alice"), "/home/alice");
    assert_eq!(target_home("/srv/x"), "/srv/x");
    assert_eq!(
        wireplumber_config_path("/home/alice"),
        "/home/alice/.config/wireplumber/wireplumber.conf.d/50-evo-routing.conf"
    );
    assert_eq!(
        wireplumber_config_path("/root/"),
        "/root/.config/wireplumber/wireplumber.conf.d/50-evo-routing.conf"
    );
}

#[test]
fn systemd_home_substitution() {
    let raw = "[Service]\nExecStart=%h/.cargo/bin/evo-control --apply-default-preset\nX=%%h %h%\n";
    let unit = systemd_unit_content(raw, "/home/alice");
    assert_eq!(unit, raw.replace("%h", "/home/alice"));
    assert!(unit.contains("/home/alice/.cargo/bin/evo-control --apply-default-preset"));
    assert!(!unit.contains("%h"));
    assert_eq!(systemd_unit_content("%", "/x"), "%");
    assert_eq!(systemd_unit_content("", "/x"), "");
    assert_eq!(systemd_unit_content("%h%h", "ab"), "abab");
}

#[test]
fn target_user_falls_back() {
    // When SUDO_USER is not set, should fall back to USER or "root"
    let user = target_user(None, Some("bob".into()));
    assert!(!user.is_empty());
    assert_eq!(user, "bob");
    let user = target_user(None, None);
    assert!(!user.is_empty());
    assert_eq!(user, "root");
}

#[test]
fn systemd_unit_substitutes_home() {
    // A unit in the form of the bundled one.
    let raw = "[Unit]\nDescription=Apply EVO 8 state\n\n[Service]\nType=oneshot\n\
               ExecStart=%h/.cargo/bin/evo-control --apply-default-preset\n";
    let home = target_home(&target_user(None, Some("alice".into())));
    let content = systemd_unit_content(raw, &home);
    assert!(content.contains("/evo-control --apply-default-preset"));
    assert!(!content.contains("%h"), "%h should be replaced with actual path");
    // Should contain the actual home path
    assert!(content.contains("/home/") || content.contains("/root/"));
    assert!(content.contains("ExecStart=/home/alice/.cargo/bin/evo-control"));
}

#[test]
fn dkms_add_only_when_not_listed() {
    assert!(dkms_needs_add("", "evo-raw/0.1.0"));
    assert!(dkms_needs_add("other/1.0: added\n", "evo-raw/0.1.0"));
    assert!(!dkms_needs_add("evo-raw/0.1.0: added\n", "evo-raw/0.1.0"));
    assert!(!dkms_needs_add("evo-raw/0.1.0, 6.9.1, x86_64: installed", "evo-raw/0.1.0"));
}

#[test]
fn uninstall_removes_sources_of_every_version() {
    assert!(is_kmod_src_dir_name("evo-raw-0.1.0"));
    assert!(is_kmod_src_dir_name("evo-raw-0.0.9"));
    assert!(!is_kmod_src_dir_name("evo-raw"));
    assert!(!is_kmod_src_dir_name("linux-headers"));
    let dir = kmod_src_dir();
    assert!(is_kmod_src_dir_name(dir.rsplit('/').next().unwrap()));
}
