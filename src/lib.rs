//! Install-layout planning for building a Cargo package into an ament
//! install space: deciding the build verb, where each artifact goes, which
//! files to copy, and the filesystem actions that carry a copy out.
pub mod action;
pub mod artifacts;
pub mod fsmodel;
pub mod install;
pub mod meta;
pub mod metadata;
pub mod orchestrate;
pub mod path;

pub use action::{copy, Action, CopyError, SourceKind, TreeEntry};
pub use artifacts::{
    binary_file_name, binary_sources, install_binaries, library_file_names, library_sources,
    ArtifactProbe,
};
pub use install::{
    build_script, classify, create_package_marker, install_files_from_metadata, install_package,
    is_pure_library, lockfile_source, package_markers, resolve_workspace,
    workspace_lock_candidate, BuildSetting, InstallError, InstallPlan, PackageDescriptor, Product,
    Verb, WorkspaceContext,
};
pub use meta::{ConfigError, MetaEntry, MetaValue};
pub use metadata::{extra_file_groups, generate_msg, Category, CodegenRequest, FileGroup, Generator};
pub use orchestrate::{build_status, install_actions, select_profile, Args, ArgsOrHelp, ProcessError};
pub use path::{split_path, FsPath};
