use vstd::prelude::*;

verus! {

/// A filesystem path held as its sequence of components. An absolute path
/// starts with the root component `"/"`.
#[derive(Debug, Clone, PartialEq, Eq)]
pub struct FsPath {
    pub comps: Vec<String>,
}

impl View for FsPath {
    type V = Seq<Seq<char>>;

    open spec fn view(&self) -> Seq<Seq<char>> {
        views(self.comps@)
    }
}

/// The text of each string in `v`.
pub open spec fn views(v: Seq<String>) -> Seq<Seq<char>> {
    Seq::new(v.len(), |i: int| v[i]@)
}

proof fn lemma_views_push(v: Seq<String>, x: String)
    ensures
        views(v.push(x)) == views(v).push(x@),
{
    assert(views(v.push(x)) =~= views(v).push(x@));
}

pub open spec fn root_comp() -> Seq<char> {
    seq!['/']
}

/// A component that names a file or directory (not the root, `.` or `..`).
pub open spec fn is_normal(c: Seq<char>) -> bool {
    c.len() > 0 && c != seq!['/'] && c != seq!['.'] && c != seq!['.', '.']
}

pub open spec fn is_absolute(p: Seq<Seq<char>>) -> bool {
    p.len() > 0 && p[0] == root_comp()
}

/// Joining replaces the base when the joined path is absolute.
pub open spec fn spec_join(base: Seq<Seq<char>>, other: Seq<Seq<char>>) -> Seq<Seq<char>> {
    if is_absolute(other) {
        other
    } else {
        base + other
    }
}

pub open spec fn spec_parent(p: Seq<Seq<char>>) -> Option<Seq<Seq<char>>> {
    if p.len() > 0 && p.last() != root_comp() {
        Some(p.drop_last())
    } else {
        None
    }
}

pub open spec fn spec_file_name(p: Seq<Seq<char>>) -> Option<Seq<char>> {
    if p.len() > 0 && is_normal(p.last()) {
        Some(p.last())
    } else {
        None
    }
}

/// Appends a piece of a split path unless it is empty or `.`.
pub open spec fn keep_piece(done: Seq<Seq<char>>, piece: Seq<char>) -> Seq<Seq<char>> {
    if piece.len() == 0 || piece == seq!['.'] {
        done
    } else {
        done.push(piece)
    }
}

/// The pieces finished before position `i` of `s`, and where the current piece starts.
pub open spec fn split_upto(s: Seq<char>, i: int) -> (Seq<Seq<char>>, int)
    decreases i,
{
    if i <= 0 {
        (seq![], 0)
    } else {
        let prev = split_upto(s, i - 1);
        if s[i - 1] == '/' {
            (keep_piece(prev.0, s.subrange(prev.1, i - 1)), i)
        } else {
            prev
        }
    }
}

/// The components of a path written as text with `/` separators.
pub open spec fn rel_components(s: Seq<char>) -> Seq<Seq<char>> {
    let st = split_upto(s, s.len() as int);
    let pieces = keep_piece(st.0, s.subrange(st.1, s.len() as int));
    if s.len() > 0 && s[0] == '/' {
        seq![root_comp()] + pieces
    } else {
        pieces
    }
}

/// Position of the last `.` in `n`, or -1.
pub open spec fn last_dot(n: Seq<char>) -> int
    decreases n.len(),
{
    if n.len() == 0 {
        -1
    } else if n.last() == '.' {
        n.len() - 1
    } else {
        last_dot(n.drop_last())
    }
}

/// The name without its extension; a leading dot starts no extension.
pub open spec fn file_stem(n: Seq<char>) -> Seq<char> {
    if last_dot(n) > 0 {
        n.subrange(0, last_dot(n))
    } else {
        n
    }
}

pub open spec fn spec_with_extension(p: Seq<Seq<char>>, ext: Seq<char>) -> Seq<Seq<char>> {
    match spec_file_name(p) {
        Some(n) => p.drop_last().push(file_stem(n) + seq!['.'] + ext),
        None => p,
    }
}

fn is_single(s: &String, c: char) -> (r: bool)
    ensures
        r == (s@ == seq![c]),
{
    let t = s.as_str();
    if t.unicode_len() == 1 {
        let d = t.get_char(0);
        if d == c {
            assert(t@ =~= seq![c]);
        }
        d == c
    } else {
        false
    }
}

fn is_normal_comp(s: &String) -> (r: bool)
    ensures
        r == is_normal(s@),
{
    let t = s.as_str();
    let n = t.unicode_len();
    if n == 0 || is_single(s, '/') || is_single(s, '.') {
        false
    } else if n == 2 && t.get_char(0) == '.' && t.get_char(1) == '.' {
        assert(s@ =~= seq!['.', '.']);
        false
    } else {
        assert(s@ != seq!['.', '.']) by {
            if s@ == seq!['.', '.'] {
                assert(s@[0] == '.' && s@[1] == '.');
            }
        }
        true
    }
}

fn push_comp(v: &mut Vec<String>, c: String)
    ensures
        views(final(v)@) == views(old(v)@).push(c@),
{
    proof {
        lemma_views_push(v@, c);
    }
    v.push(c);
}

fn string_of(s: &str) -> (r: String)
    ensures
        r@ == s@,
{
    String::from_str(s)
}

impl FsPath {
    /// The path with no components.
    pub fn empty() -> (r: FsPath)
        ensures
            r@ == Seq::<Seq<char>>::empty(),
    {
        let r = FsPath { comps: Vec::new() };
        assert(r@ =~= Seq::<Seq<char>>::empty());
        r
    }

    /// A copy of this path.
    pub fn copy_of(&self) -> (r: FsPath)
        ensures
            r@ == self@,
    {
        let mut r = FsPath::empty();
        append_all(&mut r, self);
        assert(r@ =~= self@);
        r
    }

    /// This path with one more component at its end.
    pub fn join_name(&self, name: &str) -> (r: FsPath)
        ensures
            r@ == self@.push(name@),
    {
        let mut r = self.copy_of();
        push_comp(&mut r.comps, string_of(name));
        assert(r@ =~= self@.push(name@));
        r
    }

    /// Whether the path starts at the root.
    pub fn is_absolute(&self) -> (r: bool)
        ensures
            r == is_absolute(self@),
    {
        self.comps.len() > 0 && is_single(&self.comps[0], '/')
    }

    /// This path joined with `other`, which replaces it when absolute.
    pub fn join(&self, other: &FsPath) -> (r: FsPath)
        ensures
            r@ == spec_join(self@, other@),
    {
        if other.is_absolute() {
            return other.copy_of();
        }
        let mut r = self.copy_of();
        append_all(&mut r, other);
        r
    }

    /// This path followed by the components of `other`, whatever they are.
    pub fn concat(&self, other: &FsPath) -> (r: FsPath)
        ensures
            r@ == self@ + other@,
    {
        let mut r = self.copy_of();
        append_all(&mut r, other);
        r
    }

    /// The path without its last component; none for the empty path or the root.
    pub fn parent(&self) -> (r: Option<FsPath>)
        ensures
            r matches Some(q) ==> spec_parent(self@) == Some(q@),
            r is None ==> spec_parent(self@) is None,
    {
        let n = self.comps.len();
        if n == 0 || is_single(&self.comps[n - 1], '/') {
            return None;
        }
        let mut comps: Vec<String> = Vec::new();
        let mut i: usize = 0;
        while i + 1 < n
            invariant
                n == self.comps.len(),
                n > 0,
                i < n,
                views(comps@) =~= self@.subrange(0, i as int),
            decreases n - i,
        {
            push_comp(&mut comps, self.comps[i].clone());
            i = i + 1;
            assert(views(comps@) =~= self@.subrange(0, i as int));
        }
        assert(self@.subrange(0, i as int) =~= self@.drop_last());
        Some(FsPath { comps })
    }

    /// The last component, when it names a file or directory.
    pub fn file_name(&self) -> (r: Option<String>)
        ensures
            r matches Some(s) ==> spec_file_name(self@) == Some(s@),
            r is None ==> spec_file_name(self@) is None,
    {
        let n = self.comps.len();
        if n > 0 && is_normal_comp(&self.comps[n - 1]) {
            Some(self.comps[n - 1].clone())
        } else {
            None
        }
    }

    /// This path joined with a path written as text, `/` separating components.
    pub fn join_text(&self, rel: &str) -> (r: FsPath)
        ensures
            r@ == spec_join(self@, rel_components(rel@)),
    {
        let other = split_path(rel);
        self.join(&other)
    }

    /// This path with the extension of its file name replaced by `ext`.
    pub fn with_extension(&self, ext: &str) -> (r: FsPath)
        ensures
            r@ == spec_with_extension(self@, ext@),
    {
        match self.file_name() {
            None => self.copy_of(),
            Some(name) => {
                let stem = stem_of(&name);
                let renamed = stem.concat(".").concat(ext);
                proof {
                    reveal_strlit(".");
                    assert("."@ =~= seq!['.']);
                }
                let parent = self.parent();
                let p = match parent {
                    Some(p) => p,
                    None => {
                        assert(false);
                        FsPath::empty()
                    },
                };
                let r = p.join_name(renamed.as_str());
                assert(r@ =~= spec_with_extension(self@, ext@));
                r
            },
        }
    }
}

fn append_all(r: &mut FsPath, other: &FsPath)
    ensures
        final(r)@ == old(r)@ + other@,
{
    let ghost start = r@;
    let mut i: usize = 0;
    while i < other.comps.len()
        invariant
            i <= other.comps.len(),
            r@ =~= start + other@.subrange(0, i as int),
        decreases other.comps.len() - i,
    {
        push_comp(&mut r.comps, other.comps[i].clone());
        i = i + 1;
        assert(r@ =~= start + other@.subrange(0, i as int));
    }
    assert(other@.subrange(0, i as int) =~= other@);
}

fn stem_of(name: &String) -> (r: String)
    ensures
        r@ == file_stem(name@),
{
    let t = name.as_str();
    let n = t.unicode_len();
    let mut dot: Option<usize> = None;
    let mut i: usize = 0;
    while i < n
        invariant
            n == t@.len(),
            t@ == name@,
            i <= n,
            dot matches Some(k) ==> k < i && last_dot(t@.subrange(0, i as int)) == k,
            dot is None ==> last_dot(t@.subrange(0, i as int)) == -1,
        decreases n - i,
    {
        assert(t@.subrange(0, i + 1 as int).drop_last() =~= t@.subrange(0, i as int));
        if t.get_char(i) == '.' {
            dot = Some(i);
        }
        i = i + 1;
    }
    assert(t@.subrange(0, n as int) =~= t@);
    match dot {
        Some(k) => {
            if k > 0 {
                string_of(t.substring_char(0, k))
            } else {
                name.clone()
            }
        },
        None => name.clone(),
    }
}

/// Splits text on `/` into path components, dropping empty and `.` pieces;
/// a leading `/` gives the root component.
pub fn split_path(s: &str) -> (r: FsPath)
    ensures
        r@ == rel_components(s@),
{
    let n = s.unicode_len();
    let mut done: Vec<String> = Vec::new();
    let mut start: usize = 0;
    let mut i: usize = 0;
    while i < n
        invariant
            n == s@.len(),
            i <= n,
            start <= i,
            split_upto(s@, i as int) == (views(done@), start as int),
        decreases n - i,
    {
        if s.get_char(i) == '/' {
            let piece = s.substring_char(start, i);
            let len = piece.unicode_len();
            let is_dot = len == 1 && piece.get_char(0) == '.';
            if len == 1 && is_dot {
                assert(piece@ =~= seq!['.']);
            }
            if len == 1 && !is_dot {
                assert(piece@ != seq!['.']) by {
                    if piece@ == seq!['.'] {
                        assert(piece@[0] == '.');
                    }
                }
            }
            if len != 0 && !is_dot {
                push_comp(&mut done, string_of(piece));
            }
            start = i + 1;
        }
        i = i + 1;
        assert(views(done@) =~= split_upto(s@, i as int).0);
    }
    let last = s.substring_char(start, n);
    let len = last.unicode_len();
    let is_dot = len == 1 && last.get_char(0) == '.';
    if len == 1 && is_dot {
        assert(last@ =~= seq!['.']);
    }
    if len == 1 && !is_dot {
        assert(last@ != seq!['.']) by {
            if last@ == seq!['.'] {
                assert(last@[0] == '.');
            }
        }
    }
    if len != 0 && !is_dot {
        push_comp(&mut done, string_of(last));
    }
    let pieces = FsPath { comps: done };
    assert(pieces@ =~= keep_piece(split_upto(s@, n as int).0, s@.subrange(start as int, n as int)));
    if n > 0 && s.get_char(0) == '/' {
        let mut comps: Vec<String> = Vec::new();
        proof {
            assert(views(comps@) =~= Seq::<Seq<char>>::empty());
            reveal_strlit("/");
            assert("/"@ =~= seq!['/']);
        }
        push_comp(&mut comps, string_of("/"));
        let root = FsPath { comps };
        assert(root@ =~= seq![root_comp()]);
        let mut r = root;
        append_all(&mut r, &pieces);
        assert(r@ =~= rel_components(s@));
        r
    } else {
        pieces
    }
}

} // verus!
