use vstd::prelude::*;
use crate::action::{append_actions, ops_of, push_action, Action, Op};
use crate::meta::{opt_value, text_eq, ConfigError, MetaValue};
use crate::metadata::{
    category_dir, extra_file_groups, groups_view, spec_file_groups, Category, ConfigFault,
    FileGroup,
};
use crate::path::{
    rel_components, spec_join, spec_parent, spec_with_extension, views, FsPath,
};

verus! {

/// A binary or library target of the manifest.
#[derive(Debug, Clone, PartialEq, Eq)]
pub struct Product {
    pub name: Option<String>,
}

/// The manifest's `build` key: a build-script path, or a flag.
#[derive(Debug, Clone, PartialEq, Eq)]
pub enum BuildSetting {
    Path(String),
    Flag(bool),
}

/// What the install needs to know of a package's manifest.
#[derive(Debug, PartialEq, Eq)]
pub struct PackageDescriptor {
    pub name: String,
    /// The binary targets (complete, with the ones Cargo finds by itself).
    pub bin: Vec<Product>,
    /// The `crate-type` list of the library target, when one is declared.
    pub lib_crate_types: Option<Vec<String>>,
    pub build: Option<BuildSetting>,
    pub metadata: Option<MetaValue>,
}

/// The Cargo command that a package gets.
#[derive(Debug, PartialEq, Eq, Structural, Clone, Copy)]
pub enum Verb {
    Build,
    Check,
}

impl Verb {
    pub fn as_str(&self) -> (r: &'static str)
        ensures
            *self == Verb::Build ==> r@ == "build"@,
            *self == Verb::Check ==> r@ == "check"@,
    {
        match self {
            Verb::Build => "build",
            Verb::Check => "check",
        }
    }
}

/// The library produces nothing to link against: there is none, no crate
/// type is declared, or the crate types are exactly `["rlib"]`.
pub open spec fn no_linkable_library(crate_types: Option<Seq<Seq<char>>>) -> bool {
    match crate_types {
        None => true,
        Some(ct) => ct == seq!["rlib"@],
    }
}

pub open spec fn crate_types_of(d: PackageDescriptor) -> Option<Seq<Seq<char>>> {
    match d.lib_crate_types {
        Some(v) => Some(views(v@)),
        None => None,
    }
}

/// No binaries and nothing linkable: only type checking is needed.
pub open spec fn spec_is_pure_library(d: PackageDescriptor) -> bool {
    d.bin@.len() == 0 && no_linkable_library(crate_types_of(d))
}

pub fn is_pure_library(d: &PackageDescriptor) -> (r: bool)
    ensures
        r == spec_is_pure_library(*d),
{
    if d.bin.len() != 0 {
        return false;
    }
    match &d.lib_crate_types {
        None => true,
        Some(ct) => {
            if ct.len() == 1 && text_eq(&ct[0], "rlib") {
                assert(views(ct@) =~= seq!["rlib"@]);
                true
            } else {
                assert(views(ct@) != seq!["rlib"@]) by {
                    if views(ct@) == seq!["rlib"@] {
                        assert(views(ct@).len() == 1);
                        assert(views(ct@)[0] == ct@[0]@);
                    }
                }
                false
            }
        },
    }
}

/// What was decided about a package before anything is built.
#[derive(Debug, Clone, PartialEq, Eq)]
pub struct InstallPlan {
    pub verb: Verb,
    pub extra_files: Vec<FileGroup>,
}

/// Chooses `check` for a pure library and `build` otherwise, and reads the
/// extra-file lists of the metadata, failing on a malformed one.
pub fn classify(d: &PackageDescriptor) -> (r: Result<InstallPlan, ConfigError>)
    ensures
        r is Ok <==> spec_file_groups(d.metadata) is Ok,
        r matches Ok(p) ==> (p.verb == Verb::Check <==> spec_is_pure_library(*d)),
        r matches Ok(p) ==> Ok::<_, ConfigFault>(groups_view(p.extra_files@)) == spec_file_groups(
            d.metadata,
        ),
        r matches Err(e) ==> Err::<Seq<(Category, Seq<Seq<char>>)>, _>(e@) == spec_file_groups(
            d.metadata,
        ),
{
    let groups = match extra_file_groups(d.metadata.as_ref()) {
        Ok(g) => g,
        Err(e) => {
            return Err(e);
        },
    };
    let verb = if is_pure_library(d) {
        Verb::Check
    } else {
        Verb::Build
    };
    Ok(InstallPlan { verb, extra_files: groups })
}

/// The build script to install: the declared path, none when absent or
/// switched off, an error for `build = true`.
pub fn build_script(build: &Option<BuildSetting>) -> (r: Result<Option<String>, ConfigError>)
    ensures
        build matches Some(BuildSetting::Flag(true)) <==> r matches Err(
            ConfigError::InvalidBuildSetting,
        ),
        (build matches Some(BuildSetting::Flag(true))) || r is Ok,
        build matches Some(BuildSetting::Path(p)) ==> (r matches Ok(Some(q)) && q@ == p@),
        (build is None || (build matches Some(BuildSetting::Flag(false)))) ==> (r matches Ok(None)),
{
    match build {
        Some(BuildSetting::Flag(false)) => Ok(None),
        Some(BuildSetting::Path(p)) => Ok(Some(p.clone())),
        Some(BuildSetting::Flag(true)) => Err(ConfigError::InvalidBuildSetting),
        None => Ok(None),
    }
}

pub open spec fn resource_index(install_base: Seq<Seq<char>>) -> Seq<Seq<char>> {
    install_base + seq!["share"@, "ament_index"@, "resource_index"@]
}

/// The directory of one registry of the resource index.
pub open spec fn marker_dir(install_base: Seq<Seq<char>>, registry: Seq<char>) -> Seq<Seq<char>> {
    resource_index(install_base).push(registry)
}

pub open spec fn marker_ops(
    install_base: Seq<Seq<char>>,
    registry: Seq<char>,
    package_name: Seq<char>,
) -> Seq<Op> {
    seq![
        Op::MakeDirs(marker_dir(install_base, registry)),
        Op::Touch(marker_dir(install_base, registry).push(package_name)),
    ]
}

/// Registers the package in a registry of the resource index: creates
/// `share/ament_index/resource_index/<registry>/` and an empty file named after
/// the package in it.
pub fn create_package_marker(install_base: &FsPath, marker_dir: &str, package_name: &str) -> (r:
    Vec<Action>)
    ensures
        ops_of(r@) == marker_ops(install_base@, marker_dir@, package_name@),
{
    let dir = install_base.join_name("share").join_name("ament_index").join_name(
        "resource_index",
    ).join_name(marker_dir);
    assert(dir@ == resource_index(install_base@).push(marker_dir@)) by {
        assert(install_base@.push("share"@).push("ament_index"@).push("resource_index"@)
            =~= resource_index(install_base@));
    }
    let file = dir.join_name(package_name);
    let mut out: Vec<Action> = Vec::new();
    push_action(&mut out, Action::MakeDirs(dir));
    push_action(&mut out, Action::Touch(file));
    assert(ops_of(out@) =~= marker_ops(install_base@, marker_dir@, package_name@));
    out
}

/// The two markers of a built package: the general registry and the Rust one.
pub fn package_markers(install_base: &FsPath, package_name: &str) -> (r: Vec<Action>)
    ensures
        ops_of(r@) == marker_ops(install_base@, "packages"@, package_name@) + marker_ops(
            install_base@,
            "rust_packages"@,
            package_name@,
        ),
{
    let mut out = create_package_marker(install_base, "packages", package_name);
    append_actions(&mut out, create_package_marker(install_base, "rust_packages", package_name));
    out
}

/// Whether the package stands alone or in a workspace, and the workspace's root.
#[derive(Debug, Clone, PartialEq, Eq)]
pub enum WorkspaceContext {
    Standalone,
    Workspace(FsPath),
}

/// The directory one above the manifest's directory.
pub open spec fn spec_workspace_root(manifest_path: Seq<Seq<char>>) -> Option<Seq<Seq<char>>> {
    match spec_parent(manifest_path) {
        Some(p) => spec_parent(p),
        None => None,
    }
}

/// Where a workspace's lockfile would be, if the manifest's directory has a parent.
pub fn workspace_lock_candidate(manifest_path: &FsPath) -> (r: Option<FsPath>)
    ensures
        r is None <==> spec_workspace_root(manifest_path@) is None,
        r matches Some(l) ==> l@ == spec_workspace_root(manifest_path@)->Some_0.push(
            "Cargo.lock"@,
        ),
{
    match manifest_path.parent() {
        None => None,
        Some(p) => match p.parent() {
            None => None,
            Some(root) => Some(root.join_name("Cargo.lock")),
        },
    }
}

pub open spec fn spec_resolve_workspace(manifest_path: Seq<Seq<char>>, lock_exists: bool) -> Option<
    Seq<Seq<char>>,
> {
    if lock_exists {
        spec_workspace_root(manifest_path)
    } else {
        None
    }
}

pub open spec fn context_root(ws: WorkspaceContext) -> Option<Seq<Seq<char>>> {
    match ws {
        WorkspaceContext::Standalone => None,
        WorkspaceContext::Workspace(r) => Some(r@),
    }
}

/// Settles the workspace question once: a workspace when the lockfile one
/// directory above the manifest's directory was found.
pub fn resolve_workspace(manifest_path: &FsPath, lock_exists: bool) -> (r: WorkspaceContext)
    ensures
        context_root(r) == spec_resolve_workspace(manifest_path@, lock_exists),
{
    if !lock_exists {
        return WorkspaceContext::Standalone;
    }
    match manifest_path.parent() {
        None => WorkspaceContext::Standalone,
        Some(p) => match p.parent() {
            None => WorkspaceContext::Standalone,
            Some(root) => WorkspaceContext::Workspace(root),
        },
    }
}

/// A failure of install planning.
#[derive(Debug, Clone, PartialEq, Eq)]
pub enum InstallError {
    Config(ConfigError),
    /// A binary target has no name.
    UnnamedBinary,
    /// A declared binary was not found where the build puts it.
    MissingArtifact(String),
    /// Neither the workspace's nor the package's lockfile is there.
    MissingLockfile(FsPath),
    /// The manifest path has no parent directory.
    ManifestWithoutParent,
}

/// The lockfile to install: the workspace's, else the one beside the manifest
/// (the manifest's name with extension `lock`), if that one is there.
pub open spec fn spec_lockfile(
    manifest_path: Seq<Seq<char>>,
    root: Option<Seq<Seq<char>>>,
    local_exists: bool,
) -> Option<Seq<Seq<char>>> {
    match root {
        Some(r) => Some(r.push("Cargo.lock"@)),
        None => if local_exists {
            Some(spec_with_extension(manifest_path, "lock"@))
        } else {
            None
        },
    }
}

pub fn lockfile_source(manifest_path: &FsPath, ws: &WorkspaceContext, local_exists: bool) -> (r:
    Result<FsPath, InstallError>)
    ensures
        match (r, spec_lockfile(manifest_path@, context_root(*ws), local_exists)) {
            (Ok(p), Some(q)) => p@ == q,
            (Err(InstallError::MissingLockfile(p)), None) => p@ == spec_with_extension(
                manifest_path@,
                "lock"@,
            ),
            _ => false,
        },
{
    match ws {
        WorkspaceContext::Workspace(root) => Ok(root.join_name("Cargo.lock")),
        WorkspaceContext::Standalone => {
            let local = manifest_path.with_extension("lock");
            if local_exists {
                Ok(local)
            } else {
                Err(InstallError::MissingLockfile(local))
            }
        },
    }
}

/// The source directory `share/<package>/rust` of the install space.
pub open spec fn source_dest(install_base: Seq<Seq<char>>, package_name: Seq<char>) -> Seq<
    Seq<char>,
> {
    install_base + seq!["share"@, package_name, "rust"@]
}

/// The steps that install the package's sources: a fresh source directory,
/// then the build script if any, `src`, the manifest and the lockfile into it,
/// and `package.xml` beside it.
pub open spec fn package_ops(
    install_base: Seq<Seq<char>>,
    package_path: Seq<Seq<char>>,
    manifest_path: Seq<Seq<char>>,
    package_name: Seq<char>,
    build: Option<Seq<char>>,
    lockfile: Seq<Seq<char>>,
) -> Seq<Op> {
    let dest = source_dest(install_base, package_name);
    seq![Op::RemoveTree(dest), Op::MakeDirs(dest)] + match build {
        Some(b) => seq![Op::CopyInto(spec_join(package_path, rel_components(b)), dest)],
        None => seq![],
    } + seq![
        Op::CopyInto(package_path.push("src"@), dest),
        Op::CopyInto(manifest_path, dest),
        Op::CopyInto(lockfile, dest),
        Op::CopyInto(package_path.push("package.xml"@), dest.drop_last()),
    ]
}

pub open spec fn build_path(build: Option<BuildSetting>) -> Option<Seq<char>> {
    match build {
        Some(BuildSetting::Path(p)) => Some(p@),
        _ => None,
    }
}

pub fn install_package(
    install_base: &FsPath,
    package_path: &FsPath,
    manifest_path: &FsPath,
    package_name: &str,
    build: &Option<BuildSetting>,
    ws: &WorkspaceContext,
    local_lock_exists: bool,
) -> (r: Result<Vec<Action>, InstallError>)
    ensures
        build matches Some(BuildSetting::Flag(true)) ==> r matches Err(
            InstallError::Config(ConfigError::InvalidBuildSetting),
        ),
        !(build matches Some(BuildSetting::Flag(true))) ==> match (
            r,
            spec_lockfile(manifest_path@, context_root(*ws), local_lock_exists),
        ) {
            (Ok(v), Some(l)) => ops_of(v@) == package_ops(
                install_base@,
                package_path@,
                manifest_path@,
                package_name@,
                build_path(*build),
                l,
            ),
            (Err(InstallError::MissingLockfile(p)), None) => p@ == spec_with_extension(
                manifest_path@,
                "lock"@,
            ),
            _ => false,
        },
{
    let script = match build_script(build) {
        Ok(s) => s,
        Err(e) => {
            return Err(InstallError::Config(e));
        },
    };
    let lock = match lockfile_source(manifest_path, ws, local_lock_exists) {
        Ok(l) => l,
        Err(e) => {
            return Err(e);
        },
    };
    let share = install_base.join_name("share").join_name(package_name);
    let dest = share.join_name("rust");
    assert(dest@ =~= source_dest(install_base@, package_name@));
    assert(dest@.drop_last() =~= share@);
    let mut out: Vec<Action> = Vec::new();
    push_action(&mut out, Action::RemoveTree(dest.copy_of()));
    push_action(&mut out, Action::MakeDirs(dest.copy_of()));
    let ghost head = ops_of(out@);
    match script {
        Some(b) => {
            push_action(&mut out, Action::CopyInto(package_path.join_text(b.as_str()), dest.copy_of()));
        },
        None => {},
    }
    let ghost mid = ops_of(out@);
    push_action(&mut out, Action::CopyInto(package_path.join_name("src"), dest.copy_of()));
    push_action(&mut out, Action::CopyInto(manifest_path.copy_of(), dest.copy_of()));
    push_action(&mut out, Action::CopyInto(lock, dest.copy_of()));
    push_action(&mut out, Action::CopyInto(package_path.join_name("package.xml"), share));
    assert(ops_of(out@) =~= package_ops(
        install_base@,
        package_path@,
        manifest_path@,
        package_name@,
        build_path(*build),
        spec_lockfile(manifest_path@, context_root(*ws), local_lock_exists)->Some_0,
    ));
    Ok(out)
}

/// The steps of installing extra files: for each group, its directory
/// `<category>/<package>` and a copy of each listed path into it.
pub open spec fn group_ops(
    install_base: Seq<Seq<char>>,
    package_path: Seq<Seq<char>>,
    package_name: Seq<char>,
    group: (Category, Seq<Seq<char>>),
) -> Seq<Op> {
    let dest = install_base + seq![category_dir(group.0), package_name];
    seq![Op::MakeDirs(dest)] + Seq::new(
        group.1.len(),
        |i: int| Op::CopyInto(spec_join(package_path, rel_components(group.1[i])), dest),
    )
}

pub open spec fn groups_ops(
    install_base: Seq<Seq<char>>,
    package_path: Seq<Seq<char>>,
    package_name: Seq<char>,
    groups: Seq<(Category, Seq<Seq<char>>)>,
) -> Seq<Op>
    decreases groups.len(),
{
    if groups.len() == 0 {
        seq![]
    } else {
        groups_ops(install_base, package_path, package_name, groups.drop_last()) + group_ops(
            install_base,
            package_path,
            package_name,
            groups.last(),
        )
    }
}

/// Plans the copies of the files that the metadata lists.
pub fn install_files_from_metadata(
    install_base: &FsPath,
    package_path: &FsPath,
    package_name: &str,
    metadata: Option<&MetaValue>,
) -> (r: Result<Vec<Action>, ConfigError>)
    ensures
        match (r, spec_file_groups(opt_value(metadata))) {
            (Ok(v), Ok(g)) => ops_of(v@) == groups_ops(
                install_base@,
                package_path@,
                package_name@,
                g,
            ),
            (Err(e), Err(f)) => e@ == f,
            _ => false,
        },
{
    let groups = match extra_file_groups(metadata) {
        Ok(g) => g,
        Err(e) => {
            return Err(e);
        },
    };
    let mut out: Vec<Action> = Vec::new();
    let mut i: usize = 0;
    assert(ops_of(out@) =~= groups_ops(
        install_base@,
        package_path@,
        package_name@,
        groups_view(groups@).subrange(0, 0),
    ));
    while i < groups.len()
        invariant
            i <= groups.len(),
            ops_of(out@) == groups_ops(
                install_base@,
                package_path@,
                package_name@,
                groups_view(groups@).subrange(0, i as int),
            ),
        decreases groups.len() - i,
    {
        let g = &groups[i];
        let dest = install_base.join_name(g.category.dir()).join_name(package_name);
        assert(dest@ =~= install_base@ + seq![category_dir(g.category), package_name@]);
        let ghost before = ops_of(out@);
        push_action(&mut out, Action::MakeDirs(dest.copy_of()));
        let mut j: usize = 0;
        while j < g.paths.len()
            invariant
                j <= g.paths.len(),
                ops_of(out@) == before + seq![Op::MakeDirs(dest@)] + Seq::new(
                    j as nat,
                    |k: int| Op::CopyInto(spec_join(package_path@, rel_components(g@.1[k])), dest@),
                ),
            decreases g.paths.len() - j,
        {
            push_action(
                &mut out,
                Action::CopyInto(package_path.join_text(g.paths[j].as_str()), dest.copy_of()),
            );
            j = j + 1;
            assert(ops_of(out@) =~= before + seq![Op::MakeDirs(dest@)] + Seq::new(
                j as nat,
                |k: int| Op::CopyInto(spec_join(package_path@, rel_components(g@.1[k])), dest@),
            ));
        }
        i = i + 1;
        assert(groups_view(groups@).subrange(0, i as int).drop_last() =~= groups_view(
            groups@,
        ).subrange(0, i - 1));
        assert(ops_of(out@) =~= before + group_ops(
            install_base@,
            package_path@,
            package_name@,
            groups_view(groups@)[i - 1],
        ));
    }
    assert(groups_view(groups@).subrange(0, i as int) =~= groups_view(groups@));
    Ok(out)
}

} // verus!
