use vstd::prelude::*;
use crate::action::{append_actions, ops_of, Action, Op};
use crate::artifacts::{install_binaries, spec_install_binaries, ArtifactProbe};
use crate::install::{
    build_path, context_root, install_files_from_metadata, install_package, marker_ops,
    package_markers, package_ops, spec_lockfile, groups_ops, BuildSetting, InstallError,
    PackageDescriptor, WorkspaceContext,
};
use crate::metadata::spec_file_groups;
use crate::path::{spec_parent, FsPath};

verus! {

/// The request of one build-and-install run.
#[derive(Debug, Clone, PartialEq, Eq)]
pub struct Args {
    /// The install space (the directory holding `lib`, `share` and so on).
    pub install_base: FsPath,
    /// The build-output root, Cargo's `--target-dir`.
    pub build_base: FsPath,
    /// Arguments handed on to Cargo.
    pub forwarded_args: Vec<String>,
    /// "debug", "release" or another profile name.
    pub profile: String,
    /// The package's manifest file.
    pub manifest_path: FsPath,
}

/// The parsed command line: a request, or a request for help.
#[derive(Debug, Clone, PartialEq, Eq)]
pub enum ArgsOrHelp {
    Args(Args),
    Help,
}

/// The profile of a run: `release` when asked for, else the one named, else `debug`.
pub fn select_profile(release: bool, named: Option<String>) -> (r: String)
    ensures
        release ==> r@ == "release"@,
        !release && named is Some ==> r@ == named->Some_0@,
        !release && named is None ==> r@ == "debug"@,
{
    if release {
        String::from_str("release")
    } else {
        match named {
            Some(p) => p,
            None => String::from_str("debug"),
        }
    }
}

/// The build process ended on a signal rather than with an exit code.
#[derive(Debug, Clone, PartialEq, Eq)]
pub enum ProcessError {
    TerminatedBySignal,
}

/// Reads the build's exit: code 0 is success, another code a build failure
/// (`Ok(false)`), no code at all a process error.
pub fn build_status(code: Option<i32>) -> (r: Result<bool, ProcessError>)
    ensures
        code is None <==> r is Err,
        code matches Some(c) ==> r == Ok::<bool, ProcessError>(c == 0),
{
    match code {
        None => Err(ProcessError::TerminatedBySignal),
        Some(c) => Ok(c == 0),
    }
}

/// Everything after a successful build: both markers, the sources, the
/// binaries and libraries, then the extra files.
pub open spec fn spec_install_ops(
    args: Args,
    d: PackageDescriptor,
    root: Option<Seq<Seq<char>>>,
    local_lock_exists: bool,
    windows: bool,
    probes: Seq<ArtifactProbe>,
    library_hits: Seq<bool>,
) -> Seq<Op> {
    let package_path = spec_parent(args.manifest_path@)->Some_0;
    marker_ops(args.install_base@, "packages"@, d.name@) + marker_ops(
        args.install_base@,
        "rust_packages"@,
        d.name@,
    ) + package_ops(
        args.install_base@,
        package_path,
        args.manifest_path@,
        d.name@,
        build_path(d.build),
        spec_lockfile(args.manifest_path@, root, local_lock_exists)->Some_0,
    ) + spec_install_binaries(
        args.install_base@,
        args.build_base@,
        d.name@,
        args.profile@,
        d.bin@,
        root,
        windows,
        probes,
        library_hits,
    )->Ok_0 + groups_ops(
        args.install_base@,
        package_path,
        d.name@,
        spec_file_groups(d.metadata)->Ok_0,
    )
}

/// Whether the install can be planned at all.
pub open spec fn install_possible(
    args: Args,
    d: PackageDescriptor,
    root: Option<Seq<Seq<char>>>,
    local_lock_exists: bool,
    windows: bool,
    probes: Seq<ArtifactProbe>,
    library_hits: Seq<bool>,
) -> bool {
    &&& spec_parent(args.manifest_path@) is Some
    &&& !(d.build matches Some(BuildSetting::Flag(true)))
    &&& spec_lockfile(args.manifest_path@, root, local_lock_exists) is Some
    &&& spec_install_binaries(
        args.install_base@,
        args.build_base@,
        d.name@,
        args.profile@,
        d.bin@,
        root,
        windows,
        probes,
        library_hits,
    ) is Ok
    &&& spec_file_groups(d.metadata) is Ok
}

/// Plans the whole install of a built package, from what was found on disk:
/// whether the package-local lockfile exists, where each binary was found,
/// and which library candidates exist.
pub fn install_actions(
    args: &Args,
    d: &PackageDescriptor,
    ws: &WorkspaceContext,
    local_lock_exists: bool,
    windows: bool,
    probes: &Vec<ArtifactProbe>,
    library_hits: &Vec<bool>,
) -> (r: Result<Vec<Action>, InstallError>)
    ensures
        r is Ok <==> install_possible(
            *args,
            *d,
            context_root(*ws),
            local_lock_exists,
            windows,
            probes@,
            library_hits@,
        ),
        r matches Ok(v) ==> ops_of(v@) == spec_install_ops(
            *args,
            *d,
            context_root(*ws),
            local_lock_exists,
            windows,
            probes@,
            library_hits@,
        ),
{
    let package_path = match args.manifest_path.parent() {
        Some(p) => p,
        None => {
            return Err(InstallError::ManifestWithoutParent);
        },
    };
    let name = d.name.as_str();
    let mut out = package_markers(&args.install_base, name);
    let sources = match install_package(
        &args.install_base,
        &package_path,
        &args.manifest_path,
        name,
        &d.build,
        ws,
        local_lock_exists,
    ) {
        Ok(v) => v,
        Err(e) => {
            return Err(e);
        },
    };
    let artifacts = match install_binaries(
        &args.install_base,
        &args.build_base,
        name,
        args.profile.as_str(),
        &d.bin,
        ws,
        windows,
        probes,
        library_hits,
    ) {
        Ok(v) => v,
        Err(e) => {
            return Err(e);
        },
    };
    let extra = match install_files_from_metadata(
        &args.install_base,
        &package_path,
        name,
        d.metadata.as_ref(),
    ) {
        Ok(v) => v,
        Err(e) => {
            return Err(InstallError::Config(e));
        },
    };
    append_actions(&mut out, sources);
    append_actions(&mut out, artifacts);
    append_actions(&mut out, extra);
    Ok(out)
}

} // verus!
