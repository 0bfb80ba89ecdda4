//! Installing and removing the kernel module, udev rule, systemd unit and
//! WirePlumber configuration: the order of the steps, and the names and
//! contents the steps write.
//!
//! Each step is system work (files, commands) that the caller performs in
//! order, stopping at the first one that fails.

use vstd::prelude::*;
use crate::paths::{path_join, spec_path_join};
use crate::text::{contains, spec_contains, starts_with};

verus! {

/// One step of installing or removing the driver.
#[derive(Clone, Copy, Debug, PartialEq, Eq, Structural)]
pub enum InstallStep {
    /// Refuse to go on unless running as root.
    CheckRoot,
    /// Refuse to go on unless the running kernel's headers are installed.
    CheckKernelHeaders,
    /// Install dkms when it is missing.
    EnsureDkms,
    /// Write the module sources to the DKMS source directory.
    WriteKmodSources,
    /// Register the module with DKMS (once) and build and install it.
    DkmsAddAndInstall,
    /// Write the udev rule.
    WriteUdevRules,
    /// Write the systemd user unit that applies the default preset.
    WriteSystemdUnit,
    /// Write the WirePlumber routing configuration of the invoking user.
    WriteWireplumberConfig,
    /// Reload the udev rules and trigger them.
    ReloadUdev,
    /// Load the module unless it is loaded.
    LoadModule,
    /// Refuse to finish unless the device node exists.
    VerifyDevice,
    /// Unload the module if it is loaded.
    UnloadModule,
    /// Remove the module from DKMS.
    DkmsRemove,
    /// Remove the DKMS source directory.
    RemoveKmodSources,
    /// Remove the udev rule.
    RemoveUdevRules,
    /// Remove the systemd user unit.
    RemoveSystemdUnit,
    /// Remove the WirePlumber configuration.
    RemoveWireplumberConfig,
}

/// The steps of installing, in order.
pub open spec fn spec_install_steps() -> Seq<InstallStep> {
    seq![
        InstallStep::CheckRoot,
        InstallStep::CheckKernelHeaders,
        InstallStep::EnsureDkms,
        InstallStep::WriteKmodSources,
        InstallStep::DkmsAddAndInstall,
        InstallStep::WriteUdevRules,
        InstallStep::WriteSystemdUnit,
        InstallStep::WriteWireplumberConfig,
        InstallStep::ReloadUdev,
        InstallStep::LoadModule,
        InstallStep::VerifyDevice,
    ]
}

/// The steps of removing, in order.
pub open spec fn spec_uninstall_steps() -> Seq<InstallStep> {
    seq![
        InstallStep::CheckRoot,
        InstallStep::UnloadModule,
        InstallStep::DkmsRemove,
        InstallStep::RemoveKmodSources,
        InstallStep::RemoveUdevRules,
        InstallStep::RemoveSystemdUnit,
        InstallStep::RemoveWireplumberConfig,
        InstallStep::ReloadUdev,
    ]
}

/// Install the kernel module, udev rules, systemd unit, and WirePlumber
/// config: the steps, in the order they are performed. Every step is
/// idempotent, so performing them again upgrades the bundled module.
pub fn install_driver() -> (steps: Vec<InstallStep>)
    ensures
        steps@ == spec_install_steps(),
{
    let steps = vec![
        InstallStep::CheckRoot,
        InstallStep::CheckKernelHeaders,
        InstallStep::EnsureDkms,
        InstallStep::WriteKmodSources,
        InstallStep::DkmsAddAndInstall,
        InstallStep::WriteUdevRules,
        InstallStep::WriteSystemdUnit,
        InstallStep::WriteWireplumberConfig,
        InstallStep::ReloadUdev,
        InstallStep::LoadModule,
        InstallStep::VerifyDevice,
    ];
    assert(steps@ =~= spec_install_steps());
    steps
}

/// Uninstall everything that `install_driver` installs: the steps, in the
/// order they are performed.
pub fn uninstall_driver() -> (steps: Vec<InstallStep>)
    ensures
        steps@ == spec_uninstall_steps(),
{
    let steps = vec![
        InstallStep::CheckRoot,
        InstallStep::UnloadModule,
        InstallStep::DkmsRemove,
        InstallStep::RemoveKmodSources,
        InstallStep::RemoveUdevRules,
        InstallStep::RemoveSystemdUnit,
        InstallStep::RemoveWireplumberConfig,
        InstallStep::ReloadUdev,
    ];
    assert(steps@ =~= spec_uninstall_steps());
    steps
}

/// What removing undoes of installing: every file or registration an
/// install step writes has a removal step, and both step lists begin by
/// checking for root and reload udev after changing its rules.
pub proof fn lemma_uninstall_undoes_install()
    ensures
        spec_install_steps().contains(InstallStep::WriteKmodSources)
            && spec_uninstall_steps().contains(InstallStep::RemoveKmodSources),
        spec_install_steps().contains(InstallStep::DkmsAddAndInstall)
            && spec_uninstall_steps().contains(InstallStep::DkmsRemove),
        spec_install_steps().contains(InstallStep::WriteUdevRules)
            && spec_uninstall_steps().contains(InstallStep::RemoveUdevRules),
        spec_install_steps().contains(InstallStep::WriteSystemdUnit)
            && spec_uninstall_steps().contains(InstallStep::RemoveSystemdUnit),
        spec_install_steps().contains(InstallStep::WriteWireplumberConfig)
            && spec_uninstall_steps().contains(InstallStep::RemoveWireplumberConfig),
        spec_install_steps().contains(InstallStep::LoadModule)
            && spec_uninstall_steps().contains(InstallStep::UnloadModule),
        spec_install_steps()[0] == InstallStep::CheckRoot && spec_uninstall_steps()[0]
            == InstallStep::CheckRoot,
{
    assert(spec_install_steps()[3] == InstallStep::WriteKmodSources);
    assert(spec_uninstall_steps()[3] == InstallStep::RemoveKmodSources);
    assert(spec_install_steps()[4] == InstallStep::DkmsAddAndInstall);
    assert(spec_uninstall_steps()[2] == InstallStep::DkmsRemove);
    assert(spec_install_steps()[5] == InstallStep::WriteUdevRules);
    assert(spec_uninstall_steps()[4] == InstallStep::RemoveUdevRules);
    assert(spec_install_steps()[6] == InstallStep::WriteSystemdUnit);
    assert(spec_uninstall_steps()[5] == InstallStep::RemoveSystemdUnit);
    assert(spec_install_steps()[7] == InstallStep::WriteWireplumberConfig);
    assert(spec_uninstall_steps()[6] == InstallStep::RemoveWireplumberConfig);
    assert(spec_install_steps()[9] == InstallStep::LoadModule);
    assert(spec_uninstall_steps()[1] == InstallStep::UnloadModule);
}

/// The DKMS package name of the module.
pub const KMOD_PACKAGE: &'static str = "evo-raw";

/// The udev rule file.
pub const UDEV_RULES_PATH: &'static str = "/etc/udev/rules.d/99-evo.rules";

/// The systemd user unit file.
pub const SYSTEMD_UNIT_PATH: &'static str = "/etc/systemd/user/evo-control-apply.service";

/// The device node the module creates.
pub const DEVICE_PATH: &'static str = "/dev/evo8";

/// The version of the bundled module: the package version.
pub open spec fn spec_kmod_version() -> Seq<char> {
    "0.1.0"@
}

/// Version string for the DKMS package (the package version).
pub fn kmod_version() -> (v: &'static str)
    ensures
        v@ == spec_kmod_version(),
{
    "0.1.0"
}

/// `/usr/src/evo-raw-<version>/`, where DKMS finds the module sources.
pub fn kmod_src_dir() -> (dir: String)
    ensures
        dir@ == "/usr/src/"@ + "evo-raw"@ + "-"@ + spec_kmod_version(),
{
    let mut dir = String::from_str("/usr/src/");
    dir.append(KMOD_PACKAGE);
    dir.append("-");
    dir.append(kmod_version());
    proof { reveal_strlit("evo-raw"); }
    assert(KMOD_PACKAGE@ == "evo-raw"@);
    dir
}

/// `evo-raw/<version>`, the DKMS name of the package.
pub fn dkms_package() -> (pkg: String)
    ensures
        pkg@ == "evo-raw"@ + "/"@ + spec_kmod_version(),
{
    let mut pkg = String::from_str(KMOD_PACKAGE);
    pkg.append("/");
    pkg.append(kmod_version());
    pkg
}

/// Whether DKMS still has to be told about the package: `dkms status
/// <package>` printed `status`, which names the package once it is added.
pub fn dkms_needs_add(status: &str, package: &str) -> (b: bool)
    ensures
        b == !spec_contains(status@, package@),
{
    !contains(status, package)
}

/// The directory-name prefix of the module's DKMS sources, of any version.
pub open spec fn spec_is_kmod_src_dir_name(name: Seq<char>) -> bool {
    name.len() >= 8 && name.subrange(0, 8) == "evo-raw-"@
}

/// Whether a directory of `/usr/src` holds sources of the module, of any
/// version (`evo-raw-*`); removing the driver removes all of them.
pub fn is_kmod_src_dir_name(name: &str) -> (b: bool)
    ensures
        b == spec_is_kmod_src_dir_name(name@),
{
    proof { reveal_strlit("evo-raw-"); }
    starts_with(name, "evo-raw-")
}

/// The directory the install writes the sources to is one that removing
/// the driver removes.
pub proof fn lemma_removal_covers_installed_sources()
    ensures
        spec_is_kmod_src_dir_name("evo-raw"@ + "-"@ + spec_kmod_version()),
{
    reveal_strlit("evo-raw");
    reveal_strlit("-");
    reveal_strlit("evo-raw-");
    let name = "evo-raw"@ + "-"@ + spec_kmod_version();
    assert(name.subrange(0, 8) =~= "evo-raw-"@);
}

/// The user whose files the install writes: the one that invoked sudo,
/// else the current user, else root.
pub fn target_user(sudo_user: Option<String>, user: Option<String>) -> (u: String)
    ensures
        sudo_user matches Some(s) ==> u@ == s@,
        sudo_user is None ==> (user matches Some(s) ==> u@ == s@),
        sudo_user is None && user is None ==> u@ == "root"@,
{
    match sudo_user {
        Some(s) => s,
        None => match user {
            Some(s) => s,
            None => String::from_str("root"),
        },
    }
}

/// The home directory of a user: `/root` for root, else under `/home`.
pub open spec fn spec_target_home(user: Seq<char>) -> Seq<char> {
    if user == "root"@ {
        "/root"@
    } else {
        spec_path_join("/home"@, user)
    }
}

/// Home directory of the target user.
pub fn target_home(user: &str) -> (home: String)
    ensures
        home@ == spec_target_home(user@),
{
    if crate::text::str_eq(user, "root") {
        String::from_str("/root")
    } else {
        path_join("/home", user)
    }
}

/// The WirePlumber configuration file of a user's home directory.
pub open spec fn spec_wireplumber_config_path(home: Seq<char>) -> Seq<char> {
    spec_path_join(
        spec_path_join(spec_path_join(spec_path_join(home, ".config"@), "wireplumber"@), "wireplumber.conf.d"@),
        "50-evo-routing.conf"@,
    )
}

/// `<home>/.config/wireplumber/wireplumber.conf.d/50-evo-routing.conf`.
pub fn wireplumber_config_path(home: &str) -> (p: String)
    ensures
        p@ == spec_wireplumber_config_path(home@),
{
    let a = path_join(home, ".config");
    let b = path_join(a.as_str(), "wireplumber");
    let c = path_join(b.as_str(), "wireplumber.conf.d");
    path_join(c.as_str(), "50-evo-routing.conf")
}

/// `s` with every `%h` replaced by `home`, left to right, as
/// `str::replace` does.
pub open spec fn spec_replace_home(s: Seq<char>, home: Seq<char>) -> Seq<char>
    decreases s.len(),
{
    if s.len() < 2 {
        s
    } else if s[0] == '%' && s[1] == 'h' {
        home + spec_replace_home(s.subrange(2, s.len() as int), home)
    } else {
        seq![s[0]] + spec_replace_home(s.subrange(1, s.len() as int), home)
    }
}

/// The replacement of `%h` in the suffix of `s` from `i`.
pub open spec fn spec_replace_from(s: Seq<char>, i: int, home: Seq<char>) -> Seq<char> {
    spec_replace_home(s.subrange(i, s.len() as int), home)
}

/// The systemd unit with `%h` replaced by the target user's home directory
/// (systemd would expand it to root's home for a unit that root starts).
pub fn systemd_unit_content(raw: &str, home: &str) -> (unit: String)
    ensures
        unit@ == spec_replace_home(raw@, home@),
{
    let n = raw.unicode_len();
    let mut out = String::new();
    let mut i: usize = 0;
    assert(raw@.subrange(0, n as int) =~= raw@);
    while i < n
        invariant
            n as int == raw@.len(),
            i <= n,
            out@ + spec_replace_from(raw@, i as int, home@) == spec_replace_home(raw@, home@),
        decreases n - i,
    {
        let ghost rest = raw@.subrange(i as int, n as int);
        if i + 1 < n && raw.get_char(i) == '%' && raw.get_char(i + 1) == 'h' {
            proof {
                assert(rest[0] == '%' && rest[1] == 'h');
                assert(rest.subrange(2, rest.len() as int) =~= raw@.subrange(i + 2, n as int));
            }
            out.append(home);
            i = i + 2;
        } else {
            let c = raw.substring_char(i, i + 1);
            proof {
                assert(rest.subrange(1, rest.len() as int) =~= raw@.subrange(i + 1, n as int));
                assert(c@ =~= seq![rest[0]]);
                if rest.len() < 2 {
                    assert(rest.len() == 1);
                    assert(spec_replace_home(rest, home@) == rest);
                    assert(raw@.subrange(i + 1, n as int).len() == 0);
                    assert(spec_replace_home(raw@.subrange(i + 1, n as int), home@) =~= Seq::<char>::empty());
                    assert(rest =~= seq![rest[0]]);
                }
            }
            out.append(c);
            i = i + 1;
        }
        proof {
            assert((out@ + spec_replace_from(raw@, i as int, home@)) =~= spec_replace_home(raw@, home@));
        }
    }
    proof {
        assert(raw@.subrange(n as int, n as int) =~= Seq::<char>::empty());
        assert(out@ =~= spec_replace_home(raw@, home@));
    }
    out
}

} // verus!
