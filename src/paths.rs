use vstd::prelude::*;

verus! {

/// What a walked filesystem item is.
#[derive(Debug, Clone, Copy, PartialEq, Eq, Structural)]
pub enum EntryKind {
    Directory,
    File,
    Other,
}

/// One item produced by the ignore-aware directory walk, by its full path.
#[derive(Debug, Clone)]
pub struct WalkItem {
    pub path: String,
    pub kind: EntryKind,
}

/// A directory or file to package, by its path relative to the project root.
#[derive(Debug, Clone)]
pub struct FileEntry {
    relative_path: String,
    is_dir: bool,
}

/// The path of a walked item could not be made relative to the project root.
#[derive(Debug, Clone)]
pub struct PathResolutionError {
    pub path: String,
}

impl View for WalkItem {
    type V = (Seq<char>, EntryKind);

    open spec fn view(&self) -> (Seq<char>, EntryKind) {
        (self.path@, self.kind)
    }
}

impl View for FileEntry {
    type V = (Seq<char>, EntryKind);

    closed spec fn view(&self) -> (Seq<char>, EntryKind) {
        (self.relative_path@, if self.is_dir { EntryKind::Directory } else { EntryKind::File })
    }
}

impl FileEntry {
    pub fn relative_path(&self) -> (r: &String)
        ensures
            r@ == self@.0,
    {
        &self.relative_path
    }

    pub fn kind(&self) -> (r: EntryKind)
        ensures
            r == self@.1,
            r != EntryKind::Other,
    {
        if self.is_dir {
            EntryKind::Directory
        } else {
            EntryKind::File
        }
    }

    pub fn is_dir(&self) -> (r: bool)
        ensures
            r == (self@.1 == EntryKind::Directory),
    {
        self.is_dir
    }
}

/// The result of `pathdiff::diff_paths(path, base)`, as text.
pub uninterp spec fn relative_path_of(path: Seq<char>, base: Seq<char>) -> Option<Seq<char>>;

/// Relies on `pathdiff::diff_paths`: the path of `path` relative to `base`, or
/// `None`; a path taken relative to itself is empty.
#[verifier::external_body]
fn relative_path(path: &str, base: &str) -> (r: Option<String>)
    ensures
        r is Some == relative_path_of(path@, base@) is Some,
        r is Some ==> relative_path_of(path@, base@) == Some(r->0@),
        path@ == base@ ==> r is Some && r->0@.len() == 0,
{
    pathdiff::diff_paths(path, base).map(|p| p.to_string_lossy().into_owned())
}

/// What one walked item contributes to the entries to package.
#[derive(Debug, Clone)]
pub enum ItemOutcome {
    /// Its path could not be made relative to the root.
    Unresolved,
    /// It is the root itself, or neither a directory nor a file.
    Skipped,
    Entry(FileEntry),
}

/// Classifies a walked item by its path relative to the root, if there is one,
/// and its kind.
pub fn classify_item(relative: Option<String>, kind: EntryKind) -> (r: ItemOutcome)
    ensures
        relative is None <==> r is Unresolved,
        r is Skipped <==> (relative matches Some(p) && (p@.len() == 0 || kind == EntryKind::Other)),
        r matches ItemOutcome::Entry(e) ==> relative matches Some(p) && e@ == (p@, kind),
{
    match relative {
        None => ItemOutcome::Unresolved,
        Some(p) => {
            if p.unicode_len() == 0 || kind == EntryKind::Other {
                ItemOutcome::Skipped
            } else {
                ItemOutcome::Entry(FileEntry { relative_path: p, is_dir: kind == EntryKind::Directory })
            }
        },
    }
}

/// The entries packaged for a walk: each directory and file by its relative
/// path, in walk order, leaving out the root and items of other kinds; `None`
/// when some item's path cannot be made relative to the root.
pub open spec fn collected(root: Seq<char>, walk: Seq<(Seq<char>, EntryKind)>) -> Option<Seq<(Seq<char>, EntryKind)>>
    decreases walk.len(),
{
    if walk.len() == 0 {
        Some(Seq::empty())
    } else {
        match collected(root, walk.drop_last()) {
            None => None,
            Some(prev) => match relative_path_of(walk.last().0, root) {
                None => None,
                Some(rel) => if rel.len() == 0 || walk.last().1 == EntryKind::Other {
                    Some(prev)
                } else {
                    Some(prev.push((rel, walk.last().1)))
                },
            },
        }
    }
}

/// Every walked item's path can be made relative to the root.
pub open spec fn walk_resolves(root: Seq<char>, items: Set<(Seq<char>, EntryKind)>) -> bool {
    forall|w: (Seq<char>, EntryKind)| #[trigger] items.contains(w) ==> relative_path_of(w.0, root) is Some
}

/// The entries that a set of walked items stands for: the directories and files
/// other than the root, each by its relative path.
pub open spec fn tree_entries(root: Seq<char>, items: Set<(Seq<char>, EntryKind)>) -> Set<(Seq<char>, EntryKind)> {
    Set::new(|e: (Seq<char>, EntryKind)|
        e.0.len() > 0 && e.1 != EntryKind::Other
        && exists|w: (Seq<char>, EntryKind)| #[trigger] items.contains(w) && w.1 == e.1
            && relative_path_of(w.0, root) == Some(e.0))
}

pub open spec fn walk_view(walk: Seq<WalkItem>) -> Seq<(Seq<char>, EntryKind)> {
    walk.map_values(|w: WalkItem| w@)
}

pub open spec fn entries_view(entries: Seq<FileEntry>) -> Seq<(Seq<char>, EntryKind)> {
    entries.map_values(|e: FileEntry| e@)
}

/// Number of file entries.
pub open spec fn file_count(entries: Seq<(Seq<char>, EntryKind)>) -> nat
    decreases entries.len(),
{
    if entries.len() == 0 {
        0
    } else {
        file_count(entries.drop_last()) + if entries.last().1 == EntryKind::File { 1nat } else { 0nat }
    }
}

/// Turns the walk of the project under `root` into the entries to package.
pub fn collect_entries(root: &str, walk: &Vec<WalkItem>) -> (r: Result<Vec<FileEntry>, PathResolutionError>)
    ensures
        r matches Ok(v) ==> collected(root@, walk_view(walk@)) == Some(entries_view(v@)),
        r is Err <==> collected(root@, walk_view(walk@)) is None,
        r matches Err(e) ==> exists|i: int| 0 <= i < walk@.len() && walk@[i].path@ == e.path@
            && relative_path_of(e.path@, root@) is None,
{
    let mut out: Vec<FileEntry> = Vec::new();
    let mut i: usize = 0;
    while i < walk.len()
        invariant
            i <= walk@.len(),
            collected(root@, walk_view(walk@).take(i as int)) == Some(entries_view(out@)),
        decreases walk@.len() - i,
    {
        proof {
            assert(walk_view(walk@).take(i as int + 1).drop_last() =~= walk_view(walk@).take(i as int));
        }
        let item = &walk[i];
        match classify_item(relative_path(item.path.as_str(), root), item.kind) {
            ItemOutcome::Unresolved => {
                proof {
                    lemma_collected_none_extends(root@, walk_view(walk@), i as int + 1);
                    assert(walk_view(walk@).take(walk@.len() as int) =~= walk_view(walk@));
                }
                return Err(PathResolutionError { path: item.path.clone() });
            },
            ItemOutcome::Skipped => {},
            ItemOutcome::Entry(e) => {
                let ghost old_out = out@;
                out.push(e);
                proof {
                    assert(entries_view(out@) =~= entries_view(old_out).push(e@));
                }
            },
        }
        i = i + 1;
    }
    proof {
        assert(walk_view(walk@).take(i as int) =~= walk_view(walk@));
    }
    Ok(out)
}

/// Once a prefix of the walk fails to resolve, the whole walk does.
proof fn lemma_collected_none_extends(root: Seq<char>, walk: Seq<(Seq<char>, EntryKind)>, n: int)
    requires
        0 <= n <= walk.len(),
        collected(root, walk.take(n)) is None,
    ensures
        collected(root, walk.take(walk.len() as int)) is None,
    decreases walk.len() - n,
{
    if n < walk.len() {
        assert(walk.take(n + 1).drop_last() =~= walk.take(n));
        lemma_collected_none_extends(root, walk, n + 1);
    }
}

/// Number of file entries among the entries to package.
pub fn count_files(entries: &Vec<FileEntry>) -> (r: u64)
    ensures
        r == file_count(entries_view(entries@)),
{
    let mut n: u64 = 0;
    let mut i: usize = 0;
    while i < entries.len()
        invariant
            i <= entries@.len(),
            n == file_count(entries_view(entries@).take(i as int)),
            n <= i,
        decreases entries@.len() - i,
    {
        proof {
            assert(entries_view(entries@).take(i as int + 1).drop_last() =~= entries_view(entries@).take(i as int));
        }
        if !entries[i].is_dir {
            n = n + 1;
        }
        i = i + 1;
    }
    proof {
        assert(entries_view(entries@).take(i as int) =~= entries_view(entries@));
    }
    n
}

/// The entries collected from a walk depend on the set of walked items alone:
/// collection succeeds exactly when every item resolves against the root, and
/// the set of collected entries is then the set of the walk's non-root
/// directories and files by relative path, whatever the walk order.
pub proof fn lemma_collected_set(root: Seq<char>, walk: Seq<(Seq<char>, EntryKind)>)
    ensures
        collected(root, walk) is Some <==> walk_resolves(root, walk.to_set()),
        collected(root, walk) is Some ==> collected(root, walk)->0.to_set() == tree_entries(root, walk.to_set()),
    decreases walk.len(),
{
    if walk.len() == 0 {
        assert(walk.to_set() =~= Set::empty());
        assert(tree_entries(root, walk.to_set()) =~= Set::empty());
        assert(Seq::<(Seq<char>, EntryKind)>::empty().to_set() =~= Set::empty());
    } else {
        let p = walk.drop_last();
        let w = walk.last();
        lemma_collected_set(root, p);
        assert(walk =~= p.push(w));
        assert(walk.to_set() =~= p.to_set().insert(w)) by {
            assert forall|x| walk.to_set().contains(x) <==> p.to_set().insert(w).contains(x) by {
                if walk.to_set().contains(x) {
                    let i = choose|i: int| 0 <= i < walk.len() && walk[i] == x;
                    if i < walk.len() - 1 {
                        assert(p[i] == x);
                    }
                }
                if p.to_set().contains(x) {
                    let i = choose|i: int| 0 <= i < p.len() && p[i] == x;
                    assert(walk[i] == x);
                }
                if x == w {
                    assert(walk[walk.len() - 1] == x);
                }
            }
        }
        if collected(root, p) is None {
            let u = choose|u: (Seq<char>, EntryKind)| #[trigger] p.to_set().contains(u) && relative_path_of(u.0, root) is None;
            assert(walk.to_set().contains(u));
        } else if relative_path_of(w.0, root) is None {
            assert(walk.to_set().contains(w));
        } else {
            let prev = collected(root, p)->0;
            let rel = relative_path_of(w.0, root)->0;
            assert(walk_resolves(root, walk.to_set()));
            let t0 = tree_entries(root, p.to_set());
            let t1 = tree_entries(root, walk.to_set());
            if rel.len() == 0 || w.1 == EntryKind::Other {
                assert(t1 =~= t0) by {
                    assert forall|e| t1.contains(e) implies t0.contains(e) by {
                        let x = choose|x: (Seq<char>, EntryKind)| #[trigger] walk.to_set().contains(x) && x.1 == e.1
                            && relative_path_of(x.0, root) == Some(e.0);
                        if x != w {
                            assert(p.to_set().contains(x));
                        }
                    }
                    assert forall|e| t0.contains(e) implies t1.contains(e) by {
                        let x = choose|x: (Seq<char>, EntryKind)| #[trigger] p.to_set().contains(x) && x.1 == e.1
                            && relative_path_of(x.0, root) == Some(e.0);
                        assert(walk.to_set().contains(x));
                    }
                }
            } else {
                let e_new = (rel, w.1);
                assert(prev.push(e_new).to_set() =~= prev.to_set().insert(e_new)) by {
                    let q = prev.push(e_new);
                    assert forall|x| q.to_set().contains(x) <==> prev.to_set().insert(e_new).contains(x) by {
                        if q.to_set().contains(x) {
                            let i = choose|i: int| 0 <= i < q.len() && q[i] == x;
                            if i < q.len() - 1 {
                                assert(prev[i] == x);
                            }
                        }
                        if prev.to_set().contains(x) {
                            let i = choose|i: int| 0 <= i < prev.len() && prev[i] == x;
                            assert(q[i] == x);
                        }
                        if x == e_new {
                            assert(q[q.len() - 1] == x);
                        }
                    }
                }
                assert(t1 =~= t0.insert(e_new)) by {
                    assert forall|e| t1.contains(e) implies t0.insert(e_new).contains(e) by {
                        let x = choose|x: (Seq<char>, EntryKind)| #[trigger] walk.to_set().contains(x) && x.1 == e.1
                            && relative_path_of(x.0, root) == Some(e.0);
                        if x != w {
                            assert(p.to_set().contains(x));
                        }
                    }
                    assert forall|e| t0.insert(e_new).contains(e) implies t1.contains(e) by {
                        if e == e_new {
                            assert(walk.to_set().contains(w));
                        } else {
                            let x = choose|x: (Seq<char>, EntryKind)| #[trigger] p.to_set().contains(x) && x.1 == e.1
                                && relative_path_of(x.0, root) == Some(e.0);
                            assert(walk.to_set().contains(x));
                        }
                    }
                }
            }
        }
    }
}

/// Walking an unchanged tree twice gives the same entry set: two walks that
/// report the same items, in any order, collect to the same set of entries,
/// and one fails exactly when the other does.
pub proof fn lemma_collection_is_order_independent(
    root: Seq<char>,
    first: Seq<(Seq<char>, EntryKind)>,
    second: Seq<(Seq<char>, EntryKind)>,
)
    requires
        first.to_set() == second.to_set(),
    ensures
        collected(root, first) is Some <==> collected(root, second) is Some,
        collected(root, first) is Some ==> collected(root, first)->0.to_set() == collected(root, second)->0.to_set(),
{
    lemma_collected_set(root, first);
    lemma_collected_set(root, second);
}

/// The root itself is never collected: no collected entry has an empty path,
/// and each collected entry is a directory or a file.
pub proof fn lemma_root_never_collected(root: Seq<char>, walk: Seq<(Seq<char>, EntryKind)>)
    requires
        collected(root, walk) is Some,
    ensures
        forall|i: int| 0 <= i < collected(root, walk)->0.len() ==>
            (#[trigger] collected(root, walk)->0[i]).0.len() > 0 && collected(root, walk)->0[i].1 != EntryKind::Other,
    decreases walk.len(),
{
    if walk.len() > 0 {
        lemma_root_never_collected(root, walk.drop_last());
    }
}

/// An entry to package is a directory or a file, never another kind of item.
pub proof fn lemma_entries_are_dirs_or_files(entries: Seq<FileEntry>)
    ensures
        forall|i: int| 0 <= i < entries.len() ==> (#[trigger] entries_view(entries)[i]).1 != EntryKind::Other,
{
}

} // verus!
