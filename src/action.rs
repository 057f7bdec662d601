use vstd::prelude::*;
use crate::path::{spec_file_name, FsPath};

verus! {

/// A filesystem step of an install, carried out in order by the caller.
#[derive(Debug, Clone, PartialEq, Eq)]
pub enum Action {
    /// Delete the directory tree at the path if it is there.
    RemoveTree(FsPath),
    /// Create the directory and its missing ancestors.
    MakeDirs(FsPath),
    /// Create an empty file, truncating one that is there.
    Touch(FsPath),
    /// Copy a regular file to a path, overwriting.
    CopyFile(FsPath, FsPath),
    /// Copy a file or directory tree (first path) into a directory (second path),
    /// under its own name, merging with what is there.
    CopyInto(FsPath, FsPath),
}

/// An `Action` as paths held as component sequences.
pub enum Op {
    RemoveTree(Seq<Seq<char>>),
    MakeDirs(Seq<Seq<char>>),
    Touch(Seq<Seq<char>>),
    CopyFile(Seq<Seq<char>>, Seq<Seq<char>>),
    CopyInto(Seq<Seq<char>>, Seq<Seq<char>>),
}

impl View for Action {
    type V = Op;

    open spec fn view(&self) -> Op {
        match self {
            Action::RemoveTree(p) => Op::RemoveTree(p@),
            Action::MakeDirs(p) => Op::MakeDirs(p@),
            Action::Touch(p) => Op::Touch(p@),
            Action::CopyFile(a, b) => Op::CopyFile(a@, b@),
            Action::CopyInto(a, b) => Op::CopyInto(a@, b@),
        }
    }
}

pub open spec fn ops_of(v: Seq<Action>) -> Seq<Op> {
    Seq::new(v.len(), |i: int| v[i]@)
}

pub proof fn lemma_ops_push(v: Seq<Action>, a: Action)
    ensures
        ops_of(v.push(a)) == ops_of(v).push(a@),
{
    assert(ops_of(v.push(a)) =~= ops_of(v).push(a@));
}

/// Appends `a` to `v`, keeping track of the view.
pub fn push_action(v: &mut Vec<Action>, a: Action)
    ensures
        ops_of(final(v)@) == ops_of(old(v)@).push(a@),
{
    proof {
        lemma_ops_push(v@, a);
    }
    v.push(a);
}

/// Appends all of `w` to `v`.
pub fn append_actions(v: &mut Vec<Action>, w: Vec<Action>)
    ensures
        ops_of(final(v)@) == ops_of(old(v)@) + ops_of(w@),
{
    let ghost target = ops_of(v@) + ops_of(w@);
    let mut w = w;
    while w.len() > 0
        invariant
            ops_of(v@) + ops_of(w@) == target,
        decreases w.len(),
    {
        let ghost before = w@;
        let a = w.remove(0);
        assert(before =~= seq![a] + w@);
        push_action(v, a);
        assert(ops_of(before) =~= seq![a@] + ops_of(w@));
        assert(ops_of(v@) + ops_of(w@) =~= target);
    }
    assert(ops_of(w@) =~= Seq::<Op>::empty());
    assert(ops_of(v@) =~= target);
}

/// One entry of a directory tree, below the tree's top.
#[derive(Debug, Clone, PartialEq, Eq)]
pub struct TreeEntry {
    pub rel: FsPath,
    pub is_dir: bool,
}

/// What stands at a copy source, as the caller found it on disk. A directory
/// lists its whole tree, each entry's path relative to the directory.
#[derive(Debug, Clone, PartialEq, Eq)]
pub enum SourceKind {
    Missing,
    File,
    Dir(Vec<TreeEntry>),
}

#[derive(Debug, Clone, PartialEq, Eq)]
pub enum CopyError {
    /// The source is neither a file nor a directory.
    NotFound(FsPath),
    /// The source path ends in no file name (it is empty, the root or `..`).
    NoFileName(FsPath),
}

/// The step that copies one tree entry from `src` to `target`.
pub open spec fn entry_op(src: Seq<Seq<char>>, target: Seq<Seq<char>>, e: TreeEntry) -> Op {
    if e.is_dir {
        Op::MakeDirs(target + e.rel@)
    } else {
        Op::CopyFile(src + e.rel@, target + e.rel@)
    }
}

/// Where a copy of `src` into `dest_dir` lands.
pub open spec fn copy_target(src: Seq<Seq<char>>, dest_dir: Seq<Seq<char>>) -> Seq<Seq<char>> {
    dest_dir.push(spec_file_name(src)->Some_0)
}

/// The steps of copying a directory tree: create its copy, then each entry in order.
pub open spec fn dir_copy_ops(
    src: Seq<Seq<char>>,
    dest_dir: Seq<Seq<char>>,
    entries: Seq<TreeEntry>,
) -> Seq<Op> {
    let target = copy_target(src, dest_dir);
    seq![Op::MakeDirs(target)] + Seq::new(
        entries.len(),
        |i: int| entry_op(src, target, entries[i]),
    )
}

/// The steps of copying `src` into `dest_dir`, when the copy can be made.
pub open spec fn copy_ops(src: Seq<Seq<char>>, dest_dir: Seq<Seq<char>>, kind: SourceKind) -> Seq<
    Op,
> {
    match kind {
        SourceKind::Dir(es) => dir_copy_ops(src, dest_dir, es@),
        _ => seq![Op::CopyFile(src, copy_target(src, dest_dir))],
    }
}

/// Plans copying `src` (a file or a directory tree) into `dest_dir`, under
/// `src`'s file name. Files overwrite; directories merge; nothing is deleted.
pub fn copy(src: &FsPath, dest_dir: &FsPath, kind: &SourceKind) -> (r: Result<
    Vec<Action>,
    CopyError,
>)
    ensures
        spec_file_name(src@) is None ==> (r matches Err(CopyError::NoFileName(p)) && p@ == src@),
        spec_file_name(src@) is Some && kind is Missing ==> (r matches Err(
            CopyError::NotFound(p),
        ) && p@ == src@),
        r is Ok <==> spec_file_name(src@) is Some && !(kind is Missing),
        r matches Ok(v) ==> ops_of(v@) == copy_ops(src@, dest_dir@, *kind),
{
    let name = match src.file_name() {
        Some(n) => n,
        None => {
            return Err(CopyError::NoFileName(src.copy_of()));
        },
    };
    let target = dest_dir.join_name(name.as_str());
    let mut out: Vec<Action> = Vec::new();
    match kind {
        SourceKind::Missing => Err(CopyError::NotFound(src.copy_of())),
        SourceKind::File => {
            push_action(&mut out, Action::CopyFile(src.copy_of(), target));
            assert(ops_of(out@) =~= copy_ops(src@, dest_dir@, *kind));
            Ok(out)
        },
        SourceKind::Dir(es) => {
            push_action(&mut out, Action::MakeDirs(target.copy_of()));
            let mut i: usize = 0;
            while i < es.len()
                invariant
                    i <= es.len(),
                    target@ == copy_target(src@, dest_dir@),
                    ops_of(out@) =~= seq![Op::MakeDirs(target@)] + Seq::new(
                        i as nat,
                        |j: int| entry_op(src@, target@, es@[j]),
                    ),
                decreases es.len() - i,
            {
                let e = &es[i];
                if e.is_dir {
                    push_action(&mut out, Action::MakeDirs(target.concat(&e.rel)));
                } else {
                    push_action(&mut out, Action::CopyFile(src.concat(&e.rel), target.concat(&e.rel)));
                }
                i = i + 1;
                assert(ops_of(out@) =~= seq![Op::MakeDirs(target@)] + Seq::new(
                    i as nat,
                    |j: int| entry_op(src@, target@, es@[j]),
                ));
            }
            Ok(out)
        },
    }
}

} // verus!
