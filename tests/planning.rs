use cargo_ament_build::action::{copy, Action, CopyError, SourceKind, TreeEntry};
use cargo_ament_build::artifacts::{
    binary_file_name, binary_sources, install_binaries, library_file_names, library_sources,
    ArtifactProbe,
};
use cargo_ament_build::install::{
    build_script, classify, create_package_marker, install_files_from_metadata, install_package,
    is_pure_library, lockfile_source, package_markers, resolve_workspace,
    workspace_lock_candidate, BuildSetting, InstallError, PackageDescriptor, Product, Verb,
    WorkspaceContext,
};
use cargo_ament_build::meta::{ConfigError, MetaEntry, MetaValue};
use cargo_ament_build::metadata::{extra_file_groups, generate_msg, Category, Generator};
use cargo_ament_build::orchestrate::{build_status, install_actions, select_profile, Args, ProcessError};
use cargo_ament_build::path::{split_path, FsPath};

fn p(s: &str) -> FsPath {
    split_path(s)
}

fn text(s: &str) -> MetaValue {
    MetaValue::Str(s.to_string())
}

fn table(entries: Vec<(&str, MetaValue)>) -> MetaValue {
    MetaValue::Table(
        entries
            .into_iter()
            .map(|(k, v)| MetaEntry { key: k.to_string(), value: v })
            .collect(),
    )
}

fn ros(entries: Vec<(&str, MetaValue)>) -> MetaValue {
    table(vec![("ros", table(entries))])
}

fn descriptor(bins: &[&str], crate_types: Option<&[&str]>) -> PackageDescriptor {
    PackageDescriptor {
        name: "pkg".to_string(),
        bin: bins.iter().map(|b| Product { name: Some(b.to_string()) }).collect(),
        lib_crate_types: crate_types.map(|c| c.iter().map(|s| s.to_string()).collect()),
        build: None,
        metadata: None,
    }
}

fn probe(in_workspace: bool, in_build_dir: bool) -> ArtifactProbe {
    ArtifactProbe { in_workspace, in_build_dir }
}

#[test]
fn split_path_drops_empty_and_dot_pieces() {
    assert_eq!(p("a//b/./c/").comps, vec!["a", "b", "c"]);
    assert_eq!(p("/usr/lib").comps, vec!["/", "usr", "lib"]);
    assert_eq!(p("").comps, Vec::<String>::new());
}

#[test]
fn join_text_replaces_base_with_absolute_path() {
    assert_eq!(p("/a/b").join_text("c/d"), p("/a/b/c/d"));
    assert_eq!(p("/a/b").join_text("/etc/x"), p("/etc/x"));
}

#[test]
fn with_extension_replaces_last_extension() {
    assert_eq!(p("/ws/pkg/Cargo.toml").with_extension("lock"), p("/ws/pkg/Cargo.lock"));
    assert_eq!(p("/ws/pkg/a.b.toml").with_extension("lock"), p("/ws/pkg/a.b.lock"));
    assert_eq!(p("/ws/.hidden").with_extension("lock"), p("/ws/.hidden.lock"));
    assert_eq!(p("/ws/plain").with_extension("lock"), p("/ws/plain.lock"));
}

#[test]
fn parent_and_file_name() {
    assert_eq!(p("/a/b").parent(), Some(p("/a")));
    assert_eq!(p("/").parent(), None);
    assert_eq!(p("/a/b").file_name(), Some("b".to_string()));
    assert_eq!(p("/a/..").file_name(), None);
}

#[test]
fn no_binaries_and_no_library_is_checked() {
    assert!(is_pure_library(&descriptor(&[], None)));
    assert_eq!(classify(&descriptor(&[], None)).unwrap().verb, Verb::Check);
}

#[test]
fn rlib_only_library_is_checked() {
    let d = descriptor(&[], Some(&["rlib"]));
    assert_eq!(classify(&d).unwrap().verb, Verb::Check);
}

#[test]
fn linkable_library_is_built() {
    for types in [&["cdylib"][..], &["rlib", "cdylib"][..], &["staticlib"][..], &[][..]] {
        let d = descriptor(&[], Some(types));
        assert_eq!(classify(&d).unwrap().verb, Verb::Build, "{:?}", types);
    }
}

#[test]
fn binaries_are_built() {
    let d = descriptor(&["mynode"], Some(&["rlib"]));
    assert!(!is_pure_library(&d));
    assert_eq!(classify(&d).unwrap().verb, Verb::Build);
    assert_eq!(Verb::Build.as_str(), "build");
    assert_eq!(Verb::Check.as_str(), "check");
}

#[test]
fn classify_rejects_malformed_metadata() {
    let mut d = descriptor(&[], None);
    d.metadata = Some(ros(vec![("install_to_share", text("x"))]));
    assert_eq!(
        classify(&d),
        Err(ConfigError::NotAnArray { key: "install_to_share".to_string() })
    );
}

#[test]
fn marker_is_an_empty_file_in_the_registry() {
    let actions = create_package_marker(&p("/inst"), "packages", "pkg");
    assert_eq!(
        actions,
        vec![
            Action::MakeDirs(p("/inst/share/ament_index/resource_index/packages")),
            Action::Touch(p("/inst/share/ament_index/resource_index/packages/pkg")),
        ]
    );
    assert_eq!(actions, create_package_marker(&p("/inst"), "packages", "pkg"));
}

#[test]
fn both_registries_are_marked() {
    let actions = package_markers(&p("/inst"), "pkg");
    assert_eq!(actions.len(), 4);
    assert_eq!(
        actions[3],
        Action::Touch(p("/inst/share/ament_index/resource_index/rust_packages/pkg"))
    );
}

#[test]
fn copy_of_file_lands_under_its_name() {
    let r = copy(&p("/pkg/resources/config.yaml"), &p("/inst/share/pkg"), &SourceKind::File);
    assert_eq!(
        r,
        Ok(vec![Action::CopyFile(
            p("/pkg/resources/config.yaml"),
            p("/inst/share/pkg/config.yaml")
        )])
    );
}

#[test]
fn copy_of_directory_merges_each_entry() {
    let tree = SourceKind::Dir(vec![
        TreeEntry { rel: p("sub"), is_dir: true },
        TreeEntry { rel: p("sub/a.rs"), is_dir: false },
        TreeEntry { rel: p("lib.rs"), is_dir: false },
    ]);
    let r = copy(&p("/pkg/src"), &p("/inst/share/pkg/rust"), &tree).unwrap();
    assert_eq!(
        r,
        vec![
            Action::MakeDirs(p("/inst/share/pkg/rust/src")),
            Action::MakeDirs(p("/inst/share/pkg/rust/src/sub")),
            Action::CopyFile(p("/pkg/src/sub/a.rs"), p("/inst/share/pkg/rust/src/sub/a.rs")),
            Action::CopyFile(p("/pkg/src/lib.rs"), p("/inst/share/pkg/rust/src/lib.rs")),
        ]
    );
    let again = copy(&p("/pkg/src"), &p("/inst/share/pkg/rust"), &tree).unwrap();
    assert_eq!(r, again);
}

#[test]
fn copy_of_missing_source_fails() {
    assert_eq!(
        copy(&p("/pkg/nothing"), &p("/inst"), &SourceKind::Missing),
        Err(CopyError::NotFound(p("/pkg/nothing")))
    );
    assert_eq!(
        copy(&p("/pkg/.."), &p("/inst"), &SourceKind::File),
        Err(CopyError::NoFileName(p("/pkg/..")))
    );
}

#[test]
fn single_binary_is_installed_from_the_profile_directory() {
    let bins = vec![Product { name: Some("mynode".to_string()) }];
    let r = install_binaries(
        &p("/inst"),
        &p("target"),
        "pkg",
        "debug",
        &bins,
        &WorkspaceContext::Standalone,
        false,
        &vec![probe(false, true)],
        &vec![false; 5],
    );
    assert_eq!(
        r,
        Ok(vec![
            Action::RemoveTree(p("/inst/lib/pkg")),
            Action::MakeDirs(p("/inst/lib/pkg")),
            Action::CopyFile(p("target/debug/mynode"), p("/inst/lib/pkg/mynode")),
        ])
    );
}

#[test]
fn workspace_binary_is_preferred() {
    let bins = vec![Product { name: Some("mynode".to_string()) }];
    let ws = WorkspaceContext::Workspace(p("/ws"));
    let r = install_binaries(
        &p("/inst"),
        &p("target"),
        "pkg",
        "release",
        &bins,
        &ws,
        true,
        &vec![probe(true, true)],
        &vec![],
    );
    assert_eq!(
        r.unwrap()[2],
        Action::CopyFile(p("/ws/target/release/mynode.exe"), p("/inst/lib/pkg/mynode.exe"))
    );
}

#[test]
fn library_only_package_creates_no_lib_directory() {
    let d = descriptor(&[], Some(&["rlib"]));
    assert_eq!(classify(&d).unwrap().verb, Verb::Check);
    let r = install_binaries(
        &p("/inst"),
        &p("target"),
        "pkg",
        "debug",
        &d.bin,
        &WorkspaceContext::Standalone,
        false,
        &vec![],
        &vec![false; 5],
    );
    assert_eq!(r, Ok(vec![Action::RemoveTree(p("/inst/lib/pkg"))]));
}

#[test]
fn only_found_libraries_are_copied() {
    let r = install_binaries(
        &p("/inst"),
        &p("target"),
        "pkg",
        "debug",
        &vec![],
        &WorkspaceContext::Standalone,
        false,
        &vec![],
        &vec![true, false, true, false, false],
    )
    .unwrap();
    assert_eq!(
        r,
        vec![
            Action::RemoveTree(p("/inst/lib/pkg")),
            Action::MakeDirs(p("/inst/lib/pkg")),
            Action::CopyFile(p("target/debug/libpkg.so"), p("/inst/lib/pkg/libpkg.so")),
            Action::CopyFile(p("target/debug/libpkg.a"), p("/inst/lib/pkg/libpkg.a")),
        ]
    );
}

#[test]
fn library_candidates_follow_platform_naming() {
    assert_eq!(
        library_file_names("pkg"),
        vec!["libpkg.so", "libpkg.dylib", "libpkg.a", "pkg.dll", "pkg.lib"]
    );
    assert_eq!(binary_file_name(&"node".to_string(), true), "node.exe");
    assert_eq!(binary_file_name(&"node".to_string(), false), "node");
}

#[test]
fn missing_binary_is_fatal() {
    let bins = vec![Product { name: Some("mynode".to_string()) }];
    let r = install_binaries(
        &p("/inst"),
        &p("target"),
        "pkg",
        "debug",
        &bins,
        &WorkspaceContext::Standalone,
        false,
        &vec![probe(true, false)],
        &vec![true; 5],
    );
    assert_eq!(r, Err(InstallError::MissingArtifact("mynode".to_string())));
    let unnamed = vec![Product { name: None }];
    let r = install_binaries(
        &p("/inst"),
        &p("target"),
        "pkg",
        "debug",
        &unnamed,
        &WorkspaceContext::Standalone,
        false,
        &vec![probe(true, true)],
        &vec![],
    );
    assert_eq!(r, Err(InstallError::UnnamedBinary));
}

#[test]
fn workspace_lockfile_is_preferred() {
    let manifest = p("/ws/pkg/Cargo.toml");
    assert_eq!(workspace_lock_candidate(&manifest), Some(p("/ws/Cargo.lock")));
    let ws = resolve_workspace(&manifest, true);
    assert_eq!(ws, WorkspaceContext::Workspace(p("/ws")));
    assert_eq!(lockfile_source(&manifest, &ws, true), Ok(p("/ws/Cargo.lock")));
    assert_eq!(lockfile_source(&manifest, &ws, false), Ok(p("/ws/Cargo.lock")));
}

#[test]
fn package_lockfile_is_the_fallback() {
    let manifest = p("/ws/pkg/Cargo.toml");
    let ws = resolve_workspace(&manifest, false);
    assert_eq!(ws, WorkspaceContext::Standalone);
    assert_eq!(lockfile_source(&manifest, &ws, true), Ok(p("/ws/pkg/Cargo.lock")));
    assert_eq!(
        lockfile_source(&manifest, &ws, false),
        Err(InstallError::MissingLockfile(p("/ws/pkg/Cargo.lock")))
    );
    assert_eq!(resolve_workspace(&p("Cargo.toml"), true), WorkspaceContext::Standalone);
}

#[test]
fn package_sources_are_installed() {
    let r = install_package(
        &p("/inst"),
        &p("/ws/pkg"),
        &p("/ws/pkg/Cargo.toml"),
        "pkg",
        &Some(BuildSetting::Path("build.rs".to_string())),
        &WorkspaceContext::Standalone,
        true,
    );
    let dest = p("/inst/share/pkg/rust");
    assert_eq!(
        r,
        Ok(vec![
            Action::RemoveTree(dest.clone()),
            Action::MakeDirs(dest.clone()),
            Action::CopyInto(p("/ws/pkg/build.rs"), dest.clone()),
            Action::CopyInto(p("/ws/pkg/src"), dest.clone()),
            Action::CopyInto(p("/ws/pkg/Cargo.toml"), dest.clone()),
            Action::CopyInto(p("/ws/pkg/Cargo.lock"), dest.clone()),
            Action::CopyInto(p("/ws/pkg/package.xml"), p("/inst/share/pkg")),
        ])
    );
}

#[test]
fn build_setting_true_is_rejected() {
    assert_eq!(build_script(&Some(BuildSetting::Flag(true))), Err(ConfigError::InvalidBuildSetting));
    assert_eq!(build_script(&Some(BuildSetting::Flag(false))), Ok(None));
    assert_eq!(build_script(&None), Ok(None));
    let r = install_package(
        &p("/inst"),
        &p("/ws/pkg"),
        &p("/ws/pkg/Cargo.toml"),
        "pkg",
        &Some(BuildSetting::Flag(true)),
        &WorkspaceContext::Standalone,
        true,
    );
    assert_eq!(r, Err(InstallError::Config(ConfigError::InvalidBuildSetting)));
}

#[test]
fn shared_file_is_installed_under_share() {
    let meta = ros(vec![(
        "install_to_share",
        MetaValue::Array(vec![text("resources/config.yaml")]),
    )]);
    let r = install_files_from_metadata(&p("/inst"), &p("/ws/pkg"), "pkg", Some(&meta));
    assert_eq!(
        r,
        Ok(vec![
            Action::MakeDirs(p("/inst/share/pkg")),
            Action::CopyInto(p("/ws/pkg/resources/config.yaml"), p("/inst/share/pkg")),
        ])
    );
    let steps = copy(&p("/ws/pkg/resources/config.yaml"), &p("/inst/share/pkg"), &SourceKind::File);
    assert_eq!(
        steps,
        Ok(vec![Action::CopyFile(
            p("/ws/pkg/resources/config.yaml"),
            p("/inst/share/pkg/config.yaml")
        )])
    );
    let missing =
        copy(&p("/ws/pkg/resources/config.yaml"), &p("/inst/share/pkg"), &SourceKind::Missing);
    assert_eq!(missing, Err(CopyError::NotFound(p("/ws/pkg/resources/config.yaml"))));
}

#[test]
fn all_three_categories_are_read() {
    let meta = ros(vec![
        ("install_to_lib", MetaValue::Array(vec![text("x.so")])),
        ("install_to_include", MetaValue::Array(vec![text("inc/a.h"), text("inc/b.h")])),
    ]);
    let groups = extra_file_groups(Some(&meta)).unwrap();
    assert_eq!(groups.len(), 2);
    assert_eq!(groups[0].category, Category::Headers);
    assert_eq!(groups[0].paths, vec!["inc/a.h", "inc/b.h"]);
    assert_eq!(groups[1].category, Category::Lib);
    assert_eq!(Category::Headers.dir(), "include");
    let r = install_files_from_metadata(&p("/inst"), &p("/ws/pkg"), "pkg", Some(&meta)).unwrap();
    assert_eq!(r[0], Action::MakeDirs(p("/inst/include/pkg")));
    assert_eq!(r[3], Action::MakeDirs(p("/inst/lib/pkg")));
}

#[test]
fn malformed_file_lists_are_errors() {
    let meta = ros(vec![("install_to_lib", MetaValue::Array(vec![text("a"), MetaValue::Other]))]);
    assert_eq!(
        extra_file_groups(Some(&meta)),
        Err(ConfigError::ElementNotString { key: "install_to_lib".to_string() })
    );
    let meta = ros(vec![("install_to_include", text("a"))]);
    assert_eq!(
        install_files_from_metadata(&p("/i"), &p("/p"), "pkg", Some(&meta)),
        Err(ConfigError::NotAnArray { key: "install_to_include".to_string() })
    );
}

#[test]
fn metadata_without_ros_table_installs_nothing() {
    assert_eq!(extra_file_groups(None), Ok(vec![]));
    assert_eq!(extra_file_groups(Some(&table(vec![("other", text("x"))]))), Ok(vec![]));
    assert_eq!(extra_file_groups(Some(&table(vec![("ros", text("x"))]))), Ok(vec![]));
}

#[test]
fn codegen_request_is_read_from_metadata() {
    let meta = ros(vec![
        ("msg", MetaValue::Array(vec![text("std_msgs"), MetaValue::Other, text("geometry_msgs")])),
        ("msg_dir", text("gen")),
        ("safe_drive_version", text("0.2")),
    ]);
    let q = generate_msg(Some(&meta)).unwrap().unwrap();
    assert_eq!(q.libs, vec!["std_msgs", "geometry_msgs"]);
    assert_eq!(q.msg_dir, "gen");
    assert_eq!(q.generator, Generator::Version("0.2".to_string()));
    let meta = ros(vec![
        ("msg", MetaValue::Array(vec![])),
        ("msg_dir", text("gen")),
        ("safe_drive_path", text("/sd")),
        ("safe_drive_version", text("0.2")),
    ]);
    assert_eq!(generate_msg(Some(&meta)).unwrap().unwrap().generator, Generator::Path("/sd".to_string()));
}

#[test]
fn codegen_errors() {
    assert_eq!(generate_msg(None), Ok(None));
    assert_eq!(generate_msg(Some(&ros(vec![]))), Ok(None));
    assert_eq!(
        generate_msg(Some(&ros(vec![("msg", text("x"))]))),
        Err(ConfigError::NotAnArray { key: "msg".to_string() })
    );
    let arr = || MetaValue::Array(vec![text("a")]);
    assert_eq!(
        generate_msg(Some(&ros(vec![("msg", arr())]))),
        Err(ConfigError::Missing { key: "msg_dir".to_string() })
    );
    assert_eq!(
        generate_msg(Some(&ros(vec![("msg", arr()), ("msg_dir", MetaValue::Other)]))),
        Err(ConfigError::NotAString { key: "msg_dir".to_string() })
    );
    assert_eq!(
        generate_msg(Some(&ros(vec![("msg", arr()), ("msg_dir", text("d"))]))),
        Err(ConfigError::MissingGenerator)
    );
    assert_eq!(
        generate_msg(Some(&ros(vec![
            ("msg", arr()),
            ("msg_dir", text("d")),
            ("safe_drive_path", MetaValue::Other)
        ]))),
        Err(ConfigError::NotAString { key: "safe_drive_path".to_string() })
    );
}

#[test]
fn build_exit_codes() {
    assert_eq!(build_status(Some(0)), Ok(true));
    assert_eq!(build_status(Some(101)), Ok(false));
    assert_eq!(build_status(None), Err(ProcessError::TerminatedBySignal));
}

#[test]
fn profile_selection() {
    assert_eq!(select_profile(true, Some("dev".to_string())), "release");
    assert_eq!(select_profile(false, Some("dev".to_string())), "dev");
    assert_eq!(select_profile(false, None), "debug");
}

#[test]
fn whole_install_of_a_binary_package() {
    let args = Args {
        install_base: p("/inst"),
        build_base: p("target"),
        forwarded_args: vec![],
        profile: "debug".to_string(),
        manifest_path: p("/ws/pkg/Cargo.toml"),
    };
    let d = descriptor(&["mynode"], None);
    let r = install_actions(
        &args,
        &d,
        &WorkspaceContext::Standalone,
        true,
        false,
        &vec![probe(false, true)],
        &vec![false; 5],
    )
    .unwrap();
    assert_eq!(r.len(), 4 + 6 + 3);
    assert_eq!(r[1], Action::Touch(p("/inst/share/ament_index/resource_index/packages/pkg")));
    assert_eq!(r[3], Action::Touch(p("/inst/share/ament_index/resource_index/rust_packages/pkg")));
    assert_eq!(r[12], Action::CopyFile(p("target/debug/mynode"), p("/inst/lib/pkg/mynode")));
    let mut no_parent = args.clone();
    no_parent.manifest_path = p("/");
    assert_eq!(
        install_actions(&no_parent, &d, &WorkspaceContext::Standalone, true, false, &vec![], &vec![]),
        Err(InstallError::ManifestWithoutParent)
    );
}

#[test]
fn artifact_lookup_paths() {
    let ws = WorkspaceContext::Workspace(p("/ws"));
    assert_eq!(
        binary_sources(&p("target"), "release", &ws, "node"),
        (Some(p("/ws/target/release/node")), p("target/release/node"))
    );
    assert_eq!(
        binary_sources(&p("/b"), "debug", &WorkspaceContext::Standalone, "node"),
        (None, p("/b/debug/node"))
    );
    let libs = library_sources(&p("/b"), "debug", "pkg");
    assert_eq!(libs.len(), 5);
    assert_eq!(libs[1], p("/b/debug/libpkg.dylib"));
    assert_eq!(libs[4], p("/b/debug/pkg.lib"));
}
