use vstd::prelude::*;
use crate::action::{copy_ops, copy_target, entry_op, Op, SourceKind};
use crate::install::{
    marker_dir, marker_ops, spec_lockfile, spec_resolve_workspace, spec_workspace_root,
};
use crate::path::{spec_file_name, spec_with_extension};

verus! {

/// What stands at a path of the filesystem model.
pub enum Node {
    Dir,
    File(Seq<u8>),
}

/// `q` is `p` or one of its ancestors.
pub open spec fn is_prefix(q: Seq<Seq<char>>, p: Seq<Seq<char>>) -> bool {
    q.len() <= p.len() && p.subrange(0, q.len() as int) == q
}

pub open spec fn is_dir_at(fs: Map<Seq<Seq<char>>, Node>, p: Seq<Seq<char>>) -> bool {
    fs.contains_key(p) && fs[p] is Dir
}

pub open spec fn is_file_at(fs: Map<Seq<Seq<char>>, Node>, p: Seq<Seq<char>>) -> bool {
    fs.contains_key(p) && fs[p] is File
}

/// A non-empty ancestor-or-self of `p`: what creating `p` with its ancestors touches.
pub open spec fn on_path(q: Seq<Seq<char>>, p: Seq<Seq<char>>) -> bool {
    q.len() > 0 && is_prefix(q, p)
}

/// No file stands where `p` or one of its ancestors should be a directory.
pub open spec fn dirs_creatable(fs: Map<Seq<Seq<char>>, Node>, p: Seq<Seq<char>>) -> bool {
    forall|q: Seq<Seq<char>>| #[trigger] on_path(q, p) ==> !is_file_at(fs, q)
}

pub open spec fn with_dirs(fs: Map<Seq<Seq<char>>, Node>, p: Seq<Seq<char>>) -> Map<
    Seq<Seq<char>>,
    Node,
> {
    Map::new(
        |q: Seq<Seq<char>>| fs.contains_key(q) || on_path(q, p),
        |q: Seq<Seq<char>>|
            if on_path(q, p) {
                Node::Dir
            } else {
                fs[q]
            },
    )
}

/// One step on the model, or `None` where the real step fails. A `CopyInto`
/// is first expanded by `copy` into primitive steps, so it has no model here.
pub open spec fn apply_op(fs: Map<Seq<Seq<char>>, Node>, op: Op) -> Option<
    Map<Seq<Seq<char>>, Node>,
> {
    match op {
        Op::MakeDirs(p) => if dirs_creatable(fs, p) {
            Some(with_dirs(fs, p))
        } else {
            None
        },
        Op::Touch(p) => if p.len() > 0 && is_dir_at(fs, p.drop_last()) && !is_dir_at(fs, p) {
            Some(fs.insert(p, Node::File(seq![])))
        } else {
            None
        },
        Op::CopyFile(s, t) => if is_file_at(fs, s) && t.len() > 0 && is_dir_at(fs, t.drop_last())
            && !is_dir_at(fs, t) {
            Some(fs.insert(t, fs[s]))
        } else {
            None
        },
        Op::RemoveTree(p) => Some(
            Map::new(|q: Seq<Seq<char>>| fs.contains_key(q) && !is_prefix(p, q), |q| fs[q]),
        ),
        Op::CopyInto(_, _) => None,
    }
}

/// The steps in order; `None` at the first that fails.
pub open spec fn run(fs: Map<Seq<Seq<char>>, Node>, ops: Seq<Op>) -> Option<
    Map<Seq<Seq<char>>, Node>,
>
    decreases ops.len(),
{
    if ops.len() == 0 {
        Some(fs)
    } else {
        match apply_op(fs, ops[0]) {
            Some(g) => run(g, ops.drop_first()),
            None => None,
        }
    }
}

/// Marking a package twice is marking it once: when the first marking
/// succeeds, the second succeeds too and changes nothing, and the marker is
/// one empty file.
pub proof fn marking_is_idempotent(
    fs: Map<Seq<Seq<char>>, Node>,
    install_base: Seq<Seq<char>>,
    registry: Seq<char>,
    package_name: Seq<char>,
)
    requires
        run(fs, marker_ops(install_base, registry, package_name)) is Some,
    ensures
        ({
            let once = run(fs, marker_ops(install_base, registry, package_name))->Some_0;
            &&& run(once, marker_ops(install_base, registry, package_name)) == Some(once)
            &&& once[marker_dir(install_base, registry).push(package_name)] == Node::File(seq![])
        }),
{
    let ops = marker_ops(install_base, registry, package_name);
    let d = marker_dir(install_base, registry);
    let t = d.push(package_name);
    let g = with_dirs(fs, d);
    let once = g.insert(t, Node::File(seq![]));
    assert(ops[0] == Op::MakeDirs(d));
    assert(ops.drop_first()[0] == Op::Touch(t));
    assert(ops.drop_first().drop_first().len() == 0);
    assert(t.drop_last() =~= d);
    assert(apply_op(fs, ops[0]) is Some);
    assert(apply_op(fs, ops[0]) == Some(g));
    assert(run(fs, ops) == run(g, ops.drop_first()));
    assert(apply_op(g, ops.drop_first()[0]) is Some);
    assert(apply_op(g, ops.drop_first()[0]) == Some(once));
    assert(run(fs, ops) == Some(once));
    assert forall|q: Seq<Seq<char>>| #[trigger] on_path(q, d) implies !is_file_at(once, q) by {
        assert(q != t);
    }
    assert(with_dirs(once, d) =~= once) by {
        assert forall|q: Seq<Seq<char>>| #[trigger] on_path(q, d) implies once.contains_key(q)
            && once[q] == Node::Dir by {
            assert(q != t);
        }
    }
    assert(d.len() > 0);
    assert(on_path(d, d)) by {
        assert(d.subrange(0, d.len() as int) =~= d);
    }
    assert(is_dir_at(once, d)) by {
        assert(d != t);
    }
    assert(apply_op(once, ops[0]) == Some(once));
    assert(once.insert(t, Node::File(seq![])) =~= once);
    assert(apply_op(once, ops.drop_first()[0]) == Some(once));
    assert(run(once, ops.drop_first().drop_first()) == Some(once));
    assert(run(once, ops.drop_first()) == Some(once));
}

/// The steps create directories and copy files, nothing else.
pub open spec fn only_dirs_and_copies(ops: Seq<Op>) -> bool {
    forall|i: int| 0 <= i < ops.len() ==> (#[trigger] ops[i] is MakeDirs) || ops[i] is CopyFile
}

/// Two copies to one target copy from one source, and no copy reads a path
/// that a copy writes.
pub open spec fn copies_consistent(ops: Seq<Op>) -> bool {
    forall|i: int, j: int|
        0 <= i < ops.len() && 0 <= j < ops.len() && #[trigger] ops[i] is CopyFile
            && #[trigger] ops[j] is CopyFile ==> (ops[i]->CopyFile_1 == ops[j]->CopyFile_1
            ==> ops[i]->CopyFile_0 == ops[j]->CopyFile_0) && ops[j]->CopyFile_1
            != ops[i]->CopyFile_0
}

proof fn lemma_run_split(fs: Map<Seq<Seq<char>>, Node>, ops: Seq<Op>, k: int)
    requires
        0 <= k <= ops.len(),
    ensures
        run(fs, ops) == match run(fs, ops.subrange(0, k)) {
            Some(g) => run(g, ops.subrange(k, ops.len() as int)),
            None => None,
        },
    decreases k,
{
    if k == 0 {
        assert(ops.subrange(0, 0).len() == 0);
        assert(ops.subrange(0, ops.len() as int) =~= ops);
    } else {
        assert(ops.subrange(0, k)[0] == ops[0]);
        assert(ops.subrange(0, k).drop_first() =~= ops.drop_first().subrange(0, k - 1));
        assert(ops.subrange(k, ops.len() as int) =~= ops.drop_first().subrange(
            k - 1,
            ops.drop_first().len() as int,
        ));
        match apply_op(fs, ops[0]) {
            Some(g) => {
                lemma_run_split(g, ops.drop_first(), k - 1);
            },
            None => {},
        }
    }
}

proof fn lemma_dir_persists(
    g: Map<Seq<Seq<char>>, Node>,
    ops: Seq<Op>,
    q: Seq<Seq<char>>,
)
    requires
        only_dirs_and_copies(ops),
        run(g, ops) is Some,
        is_dir_at(g, q),
    ensures
        is_dir_at(run(g, ops)->Some_0, q),
    decreases ops.len(),
{
    if ops.len() > 0 {
        let h = apply_op(g, ops[0])->Some_0;
        assert(ops[0] is MakeDirs || ops[0] is CopyFile);
        assert(is_dir_at(h, q));
        assert forall|i: int| 0 <= i < ops.drop_first().len() implies (
        #[trigger] ops.drop_first()[i] is MakeDirs) || ops.drop_first()[i] is CopyFile by {
            assert(ops.drop_first()[i] == ops[i + 1]);
        }
        lemma_dir_persists(h, ops.drop_first(), q);
    }
}

proof fn lemma_copy_kept(
    g: Map<Seq<Seq<char>>, Node>,
    ops: Seq<Op>,
    q: Seq<Seq<char>>,
    s: Seq<Seq<char>>,
    n: Node,
)
    requires
        only_dirs_and_copies(ops),
        run(g, ops) is Some,
        n is File,
        g.contains_key(q) && g[q] == n,
        g.contains_key(s) && g[s] == n,
        forall|j: int|
            0 <= j < ops.len() && #[trigger] ops[j] is CopyFile ==> (ops[j]->CopyFile_1 == q
                ==> ops[j]->CopyFile_0 == s) && ops[j]->CopyFile_1 != s,
    ensures
        run(g, ops)->Some_0.contains_key(q) && run(g, ops)->Some_0[q] == n,
        run(g, ops)->Some_0.contains_key(s) && run(g, ops)->Some_0[s] == n,
    decreases ops.len(),
{
    if ops.len() > 0 {
        let h = apply_op(g, ops[0])->Some_0;
        assert(ops[0] is MakeDirs || ops[0] is CopyFile);
        if ops[0] is MakeDirs {
            let p = ops[0]->MakeDirs_0;
            assert(!on_path(q, p)) by {
                if on_path(q, p) {
                    assert(!is_file_at(g, q));
                }
            }
            assert(!on_path(s, p)) by {
                if on_path(s, p) {
                    assert(!is_file_at(g, s));
                }
            }
        }
        assert(h.contains_key(q) && h[q] == n);
        assert(h.contains_key(s) && h[s] == n);
        assert forall|i: int| 0 <= i < ops.drop_first().len() implies (
        #[trigger] ops.drop_first()[i] is MakeDirs) || ops.drop_first()[i] is CopyFile by {
            assert(ops.drop_first()[i] == ops[i + 1]);
        }
        assert forall|j: int|
            0 <= j < ops.drop_first().len() && #[trigger] ops.drop_first()[j] is CopyFile implies (
            ops.drop_first()[j]->CopyFile_1 == q ==> ops.drop_first()[j]->CopyFile_0 == s)
            && ops.drop_first()[j]->CopyFile_1 != s by {
            assert(ops.drop_first()[j] == ops[j + 1]);
        }
        lemma_copy_kept(h, ops.drop_first(), q, s, n);
    }
}

/// After a successful run of such steps, running any one of them again changes nothing.
proof fn lemma_step_absorbed(fs: Map<Seq<Seq<char>>, Node>, ops: Seq<Op>, k: int)
    requires
        only_dirs_and_copies(ops),
        copies_consistent(ops),
        run(fs, ops) is Some,
        0 <= k < ops.len(),
    ensures
        apply_op(run(fs, ops)->Some_0, ops[k]) == Some(run(fs, ops)->Some_0),
{
    let f = run(fs, ops)->Some_0;
    lemma_run_split(fs, ops, k);
    let g = run(fs, ops.subrange(0, k))->Some_0;
    let rest = ops.subrange(k, ops.len() as int);
    assert(rest[0] == ops[k]);
    let h = apply_op(g, ops[k])->Some_0;
    let tail = rest.drop_first();
    assert(run(h, tail) == Some(f));
    assert forall|i: int| 0 <= i < tail.len() implies (#[trigger] tail[i] is MakeDirs)
        || tail[i] is CopyFile by {
        assert(tail[i] == ops[k + 1 + i]);
    }
    assert(ops[k] is MakeDirs || ops[k] is CopyFile);
    if ops[k] is MakeDirs {
        let p = ops[k]->MakeDirs_0;
        assert forall|q: Seq<Seq<char>>| #[trigger] on_path(q, p) implies is_dir_at(f, q) by {
            assert(is_dir_at(h, q));
            lemma_dir_persists(h, tail, q);
        }
        assert(with_dirs(f, p) =~= f);
    } else {
        let s = ops[k]->CopyFile_0;
        let t = ops[k]->CopyFile_1;
        assert(t != s);
        let n = g[s];
        assert(h.contains_key(t) && h[t] == n);
        assert(h.contains_key(s) && h[s] == n);
        assert forall|j: int|
            0 <= j < tail.len() && #[trigger] tail[j] is CopyFile implies (tail[j]->CopyFile_1 == t
                ==> tail[j]->CopyFile_0 == s) && tail[j]->CopyFile_1 != s by {
            assert(tail[j] == ops[k + 1 + j]);
        }
        lemma_copy_kept(h, tail, t, s, n);
        assert(t.drop_last() != t);
        assert(is_dir_at(h, t.drop_last()));
        lemma_dir_persists(h, tail, t.drop_last());
        assert(f.insert(t, f[s]) =~= f);
    }
}

proof fn lemma_run_absorbed(f: Map<Seq<Seq<char>>, Node>, ops: Seq<Op>)
    requires
        forall|k: int| 0 <= k < ops.len() ==> apply_op(f, #[trigger] ops[k]) == Some(f),
    ensures
        run(f, ops) == Some(f),
    decreases ops.len(),
{
    if ops.len() > 0 {
        assert(apply_op(f, ops[0]) == Some(f));
        assert forall|k: int| 0 <= k < ops.drop_first().len() implies apply_op(
            f,
            #[trigger] ops.drop_first()[k],
        ) == Some(f) by {
            assert(ops.drop_first()[k] == ops[k + 1]);
        }
        lemma_run_absorbed(f, ops.drop_first());
    }
}

proof fn lemma_apart(a: Seq<Seq<char>>, t: Seq<Seq<char>>, r1: Seq<Seq<char>>, r2: Seq<Seq<char>>)
    requires
        !is_prefix(a, t),
        !is_prefix(t, a),
    ensures
        a + r1 != t + r2,
{
    if a + r1 == t + r2 {
        if a.len() <= t.len() {
            assert(t.subrange(0, a.len() as int) =~= (t + r2).subrange(0, a.len() as int));
            assert(a =~= (a + r1).subrange(0, a.len() as int));
        } else {
            assert(a.subrange(0, t.len() as int) =~= (a + r1).subrange(0, t.len() as int));
            assert(t =~= (t + r2).subrange(0, t.len() as int));
        }
    }
}

/// Copying the same source into the same directory a second time leaves the
/// filesystem as the first copy left it. The source and the copy's target must
/// lie apart: neither inside the other.
pub proof fn copy_is_idempotent(
    fs: Map<Seq<Seq<char>>, Node>,
    src: Seq<Seq<char>>,
    dest_dir: Seq<Seq<char>>,
    kind: SourceKind,
)
    requires
        spec_file_name(src) is Some,
        !(kind is Missing),
        !is_prefix(src, copy_target(src, dest_dir)),
        !is_prefix(copy_target(src, dest_dir), src),
        run(fs, copy_ops(src, dest_dir, kind)) is Some,
    ensures
        run(
            run(fs, copy_ops(src, dest_dir, kind))->Some_0,
            copy_ops(src, dest_dir, kind),
        ) == run(fs, copy_ops(src, dest_dir, kind)),
{
    let ops = copy_ops(src, dest_dir, kind);
    let target = copy_target(src, dest_dir);
    let empty = Seq::<Seq<char>>::empty();
    match kind {
        SourceKind::Dir(es) => {
            assert forall|i: int| 0 <= i < ops.len() implies (#[trigger] ops[i] is MakeDirs)
                || ops[i] is CopyFile by {
                if i > 0 {
                    assert(ops[i] == entry_op(src, target, es@[i - 1]));
                }
            }
            assert forall|i: int, j: int|
                0 <= i < ops.len() && 0 <= j < ops.len() && #[trigger] ops[i] is CopyFile
                    && #[trigger] ops[j] is CopyFile implies (ops[i]->CopyFile_1
                == ops[j]->CopyFile_1 ==> ops[i]->CopyFile_0 == ops[j]->CopyFile_0)
                && ops[j]->CopyFile_1 != ops[i]->CopyFile_0 by {
                let ri = es@[i - 1].rel@;
                let rj = es@[j - 1].rel@;
                assert(ops[i] == entry_op(src, target, es@[i - 1]));
                assert(ops[j] == entry_op(src, target, es@[j - 1]));
                if target + ri == target + rj {
                    assert(ri =~= (target + ri).subrange(target.len() as int, (target + ri).len() as int));
                    assert(rj =~= (target + rj).subrange(target.len() as int, (target + rj).len() as int));
                }
                lemma_apart(src, target, ri, rj);
            }
        },
        _ => {
            lemma_apart(src, target, empty, empty);
            assert(src + empty =~= src);
            assert(target + empty =~= target);
            assert forall|i: int| 0 <= i < ops.len() implies (#[trigger] ops[i] is MakeDirs)
                || ops[i] is CopyFile by {}
        },
    }
    let once = run(fs, ops)->Some_0;
    assert forall|k: int| 0 <= k < ops.len() implies apply_op(once, #[trigger] ops[k]) == Some(
        once,
    ) by {
        lemma_step_absorbed(fs, ops, k);
    }
    lemma_run_absorbed(once, ops);
}

/// A workspace's lockfile is preferred: when the lockfile one directory above
/// the manifest's directory exists, it is the one installed; without it the
/// lockfile beside the manifest is used, and there is none to install when
/// that one is missing too.
pub proof fn workspace_lockfile_preferred(
    manifest_path: Seq<Seq<char>>,
    workspace_lock_exists: bool,
    local_lock_exists: bool,
)
    ensures
        workspace_lock_exists && spec_workspace_root(manifest_path) is Some ==> spec_lockfile(
            manifest_path,
            spec_resolve_workspace(manifest_path, workspace_lock_exists),
            local_lock_exists,
        ) == Some(spec_workspace_root(manifest_path)->Some_0.push("Cargo.lock"@)),
        !workspace_lock_exists && local_lock_exists ==> spec_lockfile(
            manifest_path,
            spec_resolve_workspace(manifest_path, workspace_lock_exists),
            local_lock_exists,
        ) == Some(spec_with_extension(manifest_path, "lock"@)),
        !workspace_lock_exists && !local_lock_exists ==> spec_lockfile(
            manifest_path,
            spec_resolve_workspace(manifest_path, workspace_lock_exists),
            local_lock_exists,
        ) is None,
{
}

} // verus!
