use vstd::prelude::*;
use crate::action::{append_actions, ops_of, push_action, Action, Op};
use crate::install::{context_root, InstallError, Product, WorkspaceContext};
use crate::path::{rel_components, spec_join, views, FsPath};

verus! {

/// Where a declared binary was found after the build.
#[derive(Debug, Clone, PartialEq, Eq)]
pub struct ArtifactProbe {
    /// In the workspace's `target/<profile>` directory.
    pub in_workspace: bool,
    /// In the build-output directory `<build base>/<profile>`.
    pub in_build_dir: bool,
}

/// A binary's file name: with `.exe` on Windows.
pub open spec fn exe_name(name: Seq<char>, windows: bool) -> Seq<char> {
    if windows {
        name + ".exe"@
    } else {
        name
    }
}

/// The library files a package can produce: `lib<name>.so`, `lib<name>.dylib`,
/// `lib<name>.a`, `<name>.dll` and `<name>.lib`.
pub open spec fn library_names(p: Seq<char>) -> Seq<Seq<char>> {
    seq![
        "lib"@ + p + ".so"@,
        "lib"@ + p + ".dylib"@,
        "lib"@ + p + ".a"@,
        p + ".dll"@,
        p + ".lib"@,
    ]
}

pub fn binary_file_name(name: &String, windows: bool) -> (r: String)
    ensures
        r@ == exe_name(name@, windows),
{
    if windows {
        name.clone().concat(".exe")
    } else {
        name.clone()
    }
}

pub fn library_file_names(package_name: &str) -> (r: Vec<String>)
    ensures
        views(r@) == library_names(package_name@),
{
    let lib = String::from_str("lib").concat(package_name);
    let mut r: Vec<String> = Vec::new();
    r.push(lib.clone().concat(".so"));
    r.push(lib.clone().concat(".dylib"));
    r.push(lib.concat(".a"));
    r.push(String::from_str(package_name).concat(".dll"));
    r.push(String::from_str(package_name).concat(".lib"));
    assert(views(r@) =~= library_names(package_name@));
    r
}

/// The build-output directory of a profile.
pub open spec fn profile_dir(base: Seq<Seq<char>>, profile: Seq<char>) -> Seq<Seq<char>> {
    spec_join(base, rel_components(profile))
}

/// Where a package's binaries and libraries are installed: `lib/<package>`.
pub open spec fn lib_dest(install_base: Seq<Seq<char>>, package_name: Seq<char>) -> Seq<Seq<char>> {
    install_base + seq!["lib"@, package_name]
}

/// Where binaries are looked up first in a workspace: `<root>/target/<profile>`.
pub open spec fn workspace_dir(root: Option<Seq<Seq<char>>>, profile: Seq<char>) -> Option<
    Seq<Seq<char>>,
> {
    match root {
        Some(r) => Some(profile_dir(r.push("target"@), profile)),
        None => None,
    }
}

pub open spec fn probe_at(probes: Seq<ArtifactProbe>, i: int) -> ArtifactProbe {
    if 0 <= i < probes.len() {
        probes[i]
    } else {
        ArtifactProbe { in_workspace: false, in_build_dir: false }
    }
}

pub open spec fn hit_at(hits: Seq<bool>, i: int) -> bool {
    0 <= i < hits.len() && hits[i]
}

/// Why a binary cannot be installed.
pub enum BinaryFault {
    Unnamed,
    Missing(Seq<char>),
}

/// The copy of one binary: from the workspace's directory when it is there,
/// else from the build-output directory, else a missing artifact.
pub open spec fn binary_op(
    src_dir: Seq<Seq<char>>,
    ws_dir: Option<Seq<Seq<char>>>,
    dest: Seq<Seq<char>>,
    windows: bool,
    b: Product,
    probe: ArtifactProbe,
) -> Result<Op, BinaryFault> {
    match b.name {
        None => Err(BinaryFault::Unnamed),
        Some(n) => {
            let f = exe_name(n@, windows);
            if ws_dir is Some && probe.in_workspace {
                Ok(Op::CopyFile(ws_dir->Some_0.push(f), dest.push(f)))
            } else if probe.in_build_dir {
                Ok(Op::CopyFile(src_dir.push(f), dest.push(f)))
            } else {
                Err(BinaryFault::Missing(n@))
            }
        },
    }
}

/// The copies of the first `k` binaries, or the first binary's fault.
pub open spec fn binary_ops_upto(
    src_dir: Seq<Seq<char>>,
    ws_dir: Option<Seq<Seq<char>>>,
    dest: Seq<Seq<char>>,
    windows: bool,
    bins: Seq<Product>,
    probes: Seq<ArtifactProbe>,
    k: int,
) -> Result<Seq<Op>, BinaryFault>
    decreases k,
{
    if k <= 0 {
        Ok(seq![])
    } else {
        match binary_ops_upto(src_dir, ws_dir, dest, windows, bins, probes, k - 1) {
            Err(e) => Err(e),
            Ok(s) => match binary_op(
                src_dir,
                ws_dir,
                dest,
                windows,
                bins[k - 1],
                probe_at(probes, k - 1),
            ) {
                Ok(op) => Ok(s.push(op)),
                Err(e) => Err(e),
            },
        }
    }
}

/// The copies of those of the first `k` library candidates that were found.
pub open spec fn library_ops_upto(
    src_dir: Seq<Seq<char>>,
    dest: Seq<Seq<char>>,
    names: Seq<Seq<char>>,
    hits: Seq<bool>,
    k: int,
) -> Seq<Op>
    decreases k,
{
    if k <= 0 {
        seq![]
    } else {
        let s = library_ops_upto(src_dir, dest, names, hits, k - 1);
        if hit_at(hits, k - 1) {
            s.push(Op::CopyFile(src_dir.push(names[k - 1]), dest.push(names[k - 1])))
        } else {
            s
        }
    }
}

/// A fresh `lib/<package>` with the copies in it; the directory is created
/// only when something is copied.
pub open spec fn artifact_ops(dest: Seq<Seq<char>>, copies: Seq<Op>) -> Seq<Op> {
    seq![Op::RemoveTree(dest)] + if copies.len() > 0 {
        seq![Op::MakeDirs(dest)] + copies
    } else {
        seq![]
    }
}

pub open spec fn spec_install_binaries(
    install_base: Seq<Seq<char>>,
    build_base: Seq<Seq<char>>,
    package_name: Seq<char>,
    profile: Seq<char>,
    bins: Seq<Product>,
    root: Option<Seq<Seq<char>>>,
    windows: bool,
    probes: Seq<ArtifactProbe>,
    library_hits: Seq<bool>,
) -> Result<Seq<Op>, BinaryFault> {
    let src_dir = profile_dir(build_base, profile);
    let dest = lib_dest(install_base, package_name);
    match binary_ops_upto(
        src_dir,
        workspace_dir(root, profile),
        dest,
        windows,
        bins,
        probes,
        bins.len() as int,
    ) {
        Err(e) => Err(e),
        Ok(b) => Ok(
            artifact_ops(
                dest,
                b + library_ops_upto(src_dir, dest, library_names(package_name), library_hits, 5),
            ),
        ),
    }
}

proof fn lemma_binary_err_stays(
    src_dir: Seq<Seq<char>>,
    ws_dir: Option<Seq<Seq<char>>>,
    dest: Seq<Seq<char>>,
    windows: bool,
    bins: Seq<Product>,
    probes: Seq<ArtifactProbe>,
    j: int,
    k: int,
)
    requires
        0 <= j <= k,
        binary_ops_upto(src_dir, ws_dir, dest, windows, bins, probes, j) is Err,
    ensures
        binary_ops_upto(src_dir, ws_dir, dest, windows, bins, probes, k) == binary_ops_upto(
            src_dir,
            ws_dir,
            dest,
            windows,
            bins,
            probes,
            j,
        ),
    decreases k - j,
{
    if j < k {
        lemma_binary_err_stays(src_dir, ws_dir, dest, windows, bins, probes, j, k - 1);
    }
}

/// Plans the install of the built binaries and libraries into `lib/<package>`.
/// `probes[i]` tells where binary `i` was found and `library_hits[j]` whether
/// library candidate `j` (in the order of `library_file_names`) was found in
/// the build-output directory; absent entries count as not found.
pub fn install_binaries(
    install_base: &FsPath,
    build_base: &FsPath,
    package_name: &str,
    profile: &str,
    binaries: &Vec<Product>,
    ws: &WorkspaceContext,
    windows: bool,
    probes: &Vec<ArtifactProbe>,
    library_hits: &Vec<bool>,
) -> (r: Result<Vec<Action>, InstallError>)
    ensures
        match (
            r,
            spec_install_binaries(
                install_base@,
                build_base@,
                package_name@,
                profile@,
                binaries@,
                context_root(*ws),
                windows,
                probes@,
                library_hits@,
            ),
        ) {
            (Ok(v), Ok(s)) => ops_of(v@) == s,
            (Err(InstallError::UnnamedBinary), Err(BinaryFault::Unnamed)) => true,
            (Err(InstallError::MissingArtifact(n)), Err(BinaryFault::Missing(m))) => n@ == m,
            _ => false,
        },
{
    let src_dir = build_base.join_text(profile);
    let dest = install_base.join_name("lib").join_name(package_name);
    assert(dest@ =~= lib_dest(install_base@, package_name@));
    let ws_dir: Option<FsPath> = match ws {
        WorkspaceContext::Standalone => None,
        WorkspaceContext::Workspace(root) => Some(root.join_name("target").join_text(profile)),
    };
    let ghost wsd = workspace_dir(context_root(*ws), profile@);
    assert(ws_dir matches Some(d) ==> wsd == Some(d@));
    assert(ws_dir is None ==> wsd is None);
    let mut copies: Vec<Action> = Vec::new();
    let mut i: usize = 0;
    assert(ops_of(copies@) =~= seq![]);
    while i < binaries.len()
        invariant
            i <= binaries.len(),
            src_dir@ == profile_dir(build_base@, profile@),
            dest@ == lib_dest(install_base@, package_name@),
            ws_dir matches Some(d) ==> wsd == Some(d@),
            ws_dir is None ==> wsd is None,
            wsd == workspace_dir(context_root(*ws), profile@),
            binary_ops_upto(src_dir@, wsd, dest@, windows, binaries@, probes@, i as int) == Ok::<
                _,
                BinaryFault,
            >(ops_of(copies@)),
        decreases binaries.len() - i,
    {
        let ghost spec_args = (src_dir@, wsd, dest@, windows, binaries@, probes@);
        let name = match &binaries[i].name {
            Some(n) => n,
            None => {
                proof {
                    assert(binary_ops_upto(src_dir@, wsd, dest@, windows, binaries@, probes@, i + 1)
                        == Err::<Seq<Op>, _>(BinaryFault::Unnamed));
                    lemma_binary_err_stays(
                        src_dir@,
                        wsd,
                        dest@,
                        windows,
                        binaries@,
                        probes@,
                        i + 1,
                        binaries.len() as int,
                    );
                }
                return Err(InstallError::UnnamedBinary);
            },
        };
        let f = binary_file_name(name, windows);
        let (in_ws, in_build) = if i < probes.len() {
            (probes[i].in_workspace, probes[i].in_build_dir)
        } else {
            (false, false)
        };
        assert(in_ws == probe_at(probes@, i as int).in_workspace);
        assert(in_build == probe_at(probes@, i as int).in_build_dir);
        let from = match &ws_dir {
            Some(d) if in_ws => d.join_name(f.as_str()),
            _ => {
                if in_build {
                    src_dir.join_name(f.as_str())
                } else {
                    proof {
                        assert(binaries@[i as int].name == Some(*name));
                        assert(binary_ops_upto(src_dir@, wsd, dest@, windows, binaries@, probes@, i + 1)
                            == Err::<Seq<Op>, _>(BinaryFault::Missing(name@)));
                        lemma_binary_err_stays(
                            src_dir@,
                            wsd,
                            dest@,
                            windows,
                            binaries@,
                            probes@,
                            i + 1,
                            binaries.len() as int,
                        );
                    }
                    return Err(InstallError::MissingArtifact(name.clone()));
                }
            },
        };
        push_action(&mut copies, Action::CopyFile(from, dest.join_name(f.as_str())));
        i = i + 1;
    }
    let names = library_file_names(package_name);
    let ghost bin_part = ops_of(copies@);
    let mut j: usize = 0;
    assert(names@.len() == 5) by {
        assert(views(names@).len() == 5);
    }
    assert(bin_part + library_ops_upto(
        src_dir@,
        dest@,
        library_names(package_name@),
        library_hits@,
        0,
    ) =~= bin_part);
    while j < 5
        invariant
            j <= 5,
            names@.len() == 5,
            views(names@) == library_names(package_name@),
            ops_of(copies@) == bin_part + library_ops_upto(
                src_dir@,
                dest@,
                library_names(package_name@),
                library_hits@,
                j as int,
            ),
        decreases 5 - j,
    {
        let hit = j < library_hits.len() && library_hits[j];
        if hit {
            assert(names@[j as int]@ == views(names@)[j as int]);
            push_action(
                &mut copies,
                Action::CopyFile(
                    src_dir.join_name(names[j].as_str()),
                    dest.join_name(names[j].as_str()),
                ),
            );
        }
        j = j + 1;
    }
    let mut out: Vec<Action> = Vec::new();
    push_action(&mut out, Action::RemoveTree(dest.copy_of()));
    if copies.len() > 0 {
        push_action(&mut out, Action::MakeDirs(dest));
        append_actions(&mut out, copies);
    }
    assert(ops_of(out@) =~= artifact_ops(
        lib_dest(install_base@, package_name@),
        bin_part + library_ops_upto(
            src_dir@,
            lib_dest(install_base@, package_name@),
            library_names(package_name@),
            library_hits@,
            5,
        ),
    ));
    Ok(out)
}

/// Where a binary file is looked for: in the workspace's directory, when
/// there is a workspace, and in the build-output directory.
pub fn binary_sources(build_base: &FsPath, profile: &str, ws: &WorkspaceContext, file: &str) -> (r: (
    Option<FsPath>,
    FsPath,
))
    ensures
        r.1@ == profile_dir(build_base@, profile@).push(file@),
        r.0 is Some <==> context_root(*ws) is Some,
        r.0 matches Some(p) ==> p@ == workspace_dir(context_root(*ws), profile@)->Some_0.push(
            file@,
        ),
{
    let local = build_base.join_text(profile).join_name(file);
    let in_ws = match ws {
        WorkspaceContext::Standalone => None,
        WorkspaceContext::Workspace(root) => Some(
            root.join_name("target").join_text(profile).join_name(file),
        ),
    };
    (in_ws, local)
}

/// The library candidates in the build-output directory, in the order of
/// `library_file_names`.
pub fn library_sources(build_base: &FsPath, profile: &str, package_name: &str) -> (r: Vec<FsPath>)
    ensures
        r@.len() == 5,
        forall|j: int|
            0 <= j < 5 ==> (#[trigger] r@[j])@ == profile_dir(build_base@, profile@).push(
                library_names(package_name@)[j],
            ),
{
    let dir = build_base.join_text(profile);
    let names = library_file_names(package_name);
    assert(names@.len() == 5) by {
        assert(views(names@).len() == 5);
    }
    let mut r: Vec<FsPath> = Vec::new();
    let mut j: usize = 0;
    while j < 5
        invariant
            j <= 5,
            names@.len() == 5,
            views(names@) == library_names(package_name@),
            dir@ == profile_dir(build_base@, profile@),
            r@.len() == j,
            forall|i: int|
                0 <= i < j ==> (#[trigger] r@[i])@ == dir@.push(library_names(package_name@)[i]),
        decreases 5 - j,
    {
        assert(names@[j as int]@ == views(names@)[j as int]);
        r.push(dir.join_name(names[j].as_str()));
        j = j + 1;
    }
    r
}

/// Every library copy is of a candidate that was found, from the build-output
/// directory to the install directory under the same name.
pub proof fn library_copies_were_found(
    src_dir: Seq<Seq<char>>,
    dest: Seq<Seq<char>>,
    names: Seq<Seq<char>>,
    hits: Seq<bool>,
    k: int,
    i: int,
)
    requires
        0 <= i < library_ops_upto(src_dir, dest, names, hits, k).len(),
    ensures
        exists|j: int|
            0 <= j < k && hit_at(hits, j) && library_ops_upto(src_dir, dest, names, hits, k)[i]
                == Op::CopyFile(src_dir.push(names[j]), dest.push(names[j])),
    decreases k,
{
    let s = library_ops_upto(src_dir, dest, names, hits, k - 1);
    if i < s.len() {
        library_copies_were_found(src_dir, dest, names, hits, k - 1, i);
        let j = choose|j: int|
            0 <= j < k - 1 && hit_at(hits, j) && s[i] == Op::CopyFile(
                src_dir.push(names[j]),
                dest.push(names[j]),
            );
        assert(library_ops_upto(src_dir, dest, names, hits, k)[i] == s[i]);
    } else {
        assert(hit_at(hits, k - 1));
    }
}

/// Every candidate that was found is copied.
pub proof fn found_libraries_are_copied(
    src_dir: Seq<Seq<char>>,
    dest: Seq<Seq<char>>,
    names: Seq<Seq<char>>,
    hits: Seq<bool>,
    k: int,
    j: int,
)
    requires
        0 <= j < k,
        hit_at(hits, j),
    ensures
        library_ops_upto(src_dir, dest, names, hits, k).contains(
            Op::CopyFile(src_dir.push(names[j]), dest.push(names[j])),
        ),
    decreases k,
{
    let s = library_ops_upto(src_dir, dest, names, hits, k - 1);
    let op = Op::CopyFile(src_dir.push(names[j]), dest.push(names[j]));
    if j < k - 1 {
        found_libraries_are_copied(src_dir, dest, names, hits, k - 1, j);
        let idx = choose|idx: int| 0 <= idx < s.len() && s[idx] == op;
        if hit_at(hits, k - 1) {
            assert(library_ops_upto(src_dir, dest, names, hits, k)[idx] == op);
        }
    } else {
        assert(library_ops_upto(src_dir, dest, names, hits, k).last() == op);
    }
}

} // verus!
