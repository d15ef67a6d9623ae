//! Path discovery as a state machine. The caller owns the file-system walk:
//! it asks for the next queued path, looks it up, and reports back what it
//! found. The resolver decides — files are kept, a directory's source-file
//! entries are kept and its subdirectories queued (breadth-first), anything
//! else is skipped, and a missing path fails the whole resolution. The final
//! list is filtered once against the ignore set by exact string match.

use vstd::prelude::*;

verus! {

/// What one entry of a directory is: a source file of the target language, a
/// subdirectory, or something else (skipped).
#[derive(Clone, Copy, PartialEq, Eq, Structural, Debug)]
pub enum EntryKind {
    SourceFile,
    Subdir,
    Other,
}

/// One entry of a directory listing, as plain values.
pub struct DirEntry {
    pub path: String,
    pub kind: EntryKind,
}

/// The mathematical value of a `DirEntry`.
pub struct DirEntryV {
    pub path: Seq<char>,
    pub kind: EntryKind,
}

impl DeepView for DirEntry {
    type V = DirEntryV;

    open spec fn deep_view(&self) -> DirEntryV {
        DirEntryV { path: self.path@, kind: self.kind }
    }
}

/// The paths of the source-file entries of a listing, in listing order.
pub open spec fn source_paths(es: Seq<DirEntryV>) -> Seq<Seq<char>>
    decreases es.len(),
{
    if es.len() == 0 {
        Seq::empty()
    } else {
        source_paths(es.drop_last()) + (if es.last().kind == EntryKind::SourceFile {
            seq![es.last().path]
        } else {
            Seq::<Seq<char>>::empty()
        })
    }
}

/// The paths of the subdirectory entries of a listing, in listing order.
pub open spec fn subdir_paths(es: Seq<DirEntryV>) -> Seq<Seq<char>>
    decreases es.len(),
{
    if es.len() == 0 {
        Seq::empty()
    } else {
        subdir_paths(es.drop_last()) + (if es.last().kind == EntryKind::Subdir {
            seq![es.last().path]
        } else {
            Seq::<Seq<char>>::empty()
        })
    }
}

/// How many entries of a listing have the given kind.
pub open spec fn count_kind(es: Seq<DirEntryV>, k: EntryKind) -> nat
    decreases es.len(),
{
    if es.len() == 0 {
        0
    } else {
        count_kind(es.drop_last(), k) + (if es.last().kind == k {
            1nat
        } else {
            0nat
        })
    }
}

/// `ps` with every path of the ignore set removed, by exact match.
pub open spec fn remove_ignored(ps: Seq<Seq<char>>, ig: Seq<Seq<char>>) -> Seq<Seq<char>>
    decreases ps.len(),
{
    if ps.len() == 0 {
        Seq::empty()
    } else {
        remove_ignored(ps.drop_last(), ig) + (if ig.contains(ps.last()) {
            Seq::<Seq<char>>::empty()
        } else {
            seq![ps.last()]
        })
    }
}

/// Expands a list of input paths into the flat list of source files below
/// them. Drive it by popping queued paths with `next_path`, answering each
/// with `on_file`, `on_directory` or `on_missing`, and closing with `finish`.
pub struct PathResolver {
    pending: Vec<String>,
    cursor: usize,
    found: Vec<String>,
    ignore: Vec<String>,
    failed: bool,
}

impl PathResolver {
    /// The resolver never hands out more paths than were queued.
    pub closed spec fn wf(&self) -> bool {
        self.cursor <= self.pending@.len()
    }

    /// The paths still to be looked up, front first.
    pub closed spec fn queue(&self) -> Seq<Seq<char>> {
        self.pending.deep_view().skip(self.cursor as int)
    }

    /// The source files discovered so far, in discovery order, before the
    /// ignore filter.
    pub closed spec fn found_view(&self) -> Seq<Seq<char>> {
        self.found.deep_view()
    }

    /// The ignore set, compared by exact string equality.
    pub closed spec fn ignore_view(&self) -> Seq<Seq<char>> {
        self.ignore.deep_view()
    }

    /// Whether some looked-up path was missing: the whole resolution fails.
    pub closed spec fn has_failed(&self) -> bool {
        self.failed
    }

    /// Starts a resolution of `paths` with an optional ignore set.
    pub fn new(paths: Vec<String>, ignore: Option<Vec<String>>) -> (r: PathResolver)
        ensures
            r.wf(),
            !r.has_failed(),
            r.queue() == paths.deep_view(),
            r.found_view() == Seq::<Seq<char>>::empty(),
            ignore matches Some(ig) ==> r.ignore_view() == ig.deep_view(),
            ignore is None ==> r.ignore_view() == Seq::<Seq<char>>::empty(),
    {
        let ig = match ignore {
            Some(v) => v,
            None => Vec::new(),
        };
        let r = PathResolver {
            pending: paths,
            cursor: 0,
            found: Vec::new(),
            ignore: ig,
            failed: false,
        };
        proof {
            assert(r.queue() =~= r.pending.deep_view());
            assert(r.found_view() =~= Seq::<Seq<char>>::empty());
        }
        r
    }

    /// Hands out the next queued path, or `None` once the queue is exhausted
    /// or the resolution has failed.
    pub fn next_path(&mut self) -> (r: Option<String>)
        requires
            old(self).wf(),
        ensures
            final(self).wf(),
            old(self).has_failed() || old(self).queue().len() == 0 ==> r is None && *final(self)
                == *old(self),
            !old(self).has_failed() && old(self).queue().len() > 0 ==> {
                &&& r matches Some(p) && p@ == old(self).queue().first()
                &&& final(self).queue() == old(self).queue().drop_first()
                &&& final(self).found_view() == old(self).found_view()
                &&& final(self).ignore_view() == old(self).ignore_view()
                &&& !final(self).has_failed()
            },
    {
        if self.failed {
            None
        } else if self.cursor < self.pending.len() {
            let p = self.pending[self.cursor].clone();
            self.cursor = self.cursor + 1;
            proof {
                assert(self.queue() =~= old(self).queue().drop_first());
            }
            Some(p)
        } else {
            None
        }
    }

    /// A looked-up path did not exist: the whole resolution fails.
    pub fn on_missing(&mut self)
        requires
            old(self).wf(),
        ensures
            final(self).wf(),
            final(self).has_failed(),
            final(self).queue() == old(self).queue(),
            final(self).found_view() == old(self).found_view(),
            final(self).ignore_view() == old(self).ignore_view(),
    {
        self.failed = true;
    }

    /// A looked-up path was a regular file: it is kept verbatim, whatever its
    /// extension.
    pub fn on_file(&mut self, path: String)
        requires
            old(self).wf(),
        ensures
            final(self).wf(),
            final(self).found_view() == old(self).found_view().push(path@),
            final(self).queue() == old(self).queue(),
            final(self).ignore_view() == old(self).ignore_view(),
            final(self).has_failed() == old(self).has_failed(),
    {
        self.found.push(path);
        proof {
            assert(self.found_view() =~= old(self).found_view().push(path@));
        }
    }

    /// A looked-up path was a directory: its source-file entries are kept, in
    /// listing order, and its subdirectories are queued after everything
    /// already waiting — the walk is breadth-first by level. Other entries
    /// are skipped.
    pub fn on_directory(&mut self, entries: Vec<DirEntry>)
        requires
            old(self).wf(),
        ensures
            final(self).wf(),
            final(self).found_view() == old(self).found_view() + source_paths(entries.deep_view()),
            final(self).queue() == old(self).queue() + subdir_paths(entries.deep_view()),
            final(self).ignore_view() == old(self).ignore_view(),
            final(self).has_failed() == old(self).has_failed(),
    {
        let ghost dv = entries.deep_view();
        let n = entries.len();
        let mut i: usize = 0;
        while i < n
            invariant
                i <= n,
                n == entries.len(),
                dv == entries.deep_view(),
                self.wf(),
                self.cursor == old(self).cursor,
                self.ignore == old(self).ignore,
                self.failed == old(self).failed,
                self.found.deep_view() == old(self).found.deep_view() + source_paths(
                    dv.take(i as int),
                ),
                self.pending.deep_view() == old(self).pending.deep_view() + subdir_paths(
                    dv.take(i as int),
                ),
            decreases n - i,
        {
            proof {
                assert(dv.take(i as int + 1).drop_last() =~= dv.take(i as int));
                assert(dv.take(i as int + 1).last() == dv[i as int]);
            }
            let e = &entries[i];
            let ghost pre_found = self.found.deep_view();
            let ghost pre_pending = self.pending.deep_view();
            match e.kind {
                EntryKind::SourceFile => {
                    let p = e.path.clone();
                    self.found.push(p);
                    proof {
                        assert(self.found.deep_view() =~= pre_found.push(dv[i as int].path));
                    }
                },
                EntryKind::Subdir => {
                    let p = e.path.clone();
                    self.pending.push(p);
                    proof {
                        assert(self.pending.deep_view() =~= pre_pending.push(dv[i as int].path));
                    }
                },
                EntryKind::Other => {},
            }
            i = i + 1;
            proof {
                assert(self.found.deep_view() =~= old(self).found.deep_view() + source_paths(
                    dv.take(i as int),
                ));
                assert(self.pending.deep_view() =~= old(self).pending.deep_view() + subdir_paths(
                    dv.take(i as int),
                ));
            }
        }
        proof {
            assert(dv.take(n as int) =~= dv);
            assert(self.queue() =~= old(self).queue() + subdir_paths(dv));
            assert(self.found_view() =~= old(self).found_view() + source_paths(dv));
        }
    }

    /// Closes the resolution: `None` when some path was missing, otherwise
    /// the discovered files with every ignored path removed by exact match.
    pub fn finish(self) -> (r: Option<Vec<String>>)
        requires
            self.wf(),
        ensures
            self.has_failed() ==> r is None,
            !self.has_failed() ==> (r matches Some(v) && v.deep_view() == remove_ignored(
                self.found_view(),
                self.ignore_view(),
            )),
    {
        if self.failed {
            return None;
        }
        let ghost fv = self.found.deep_view();
        let ghost iv = self.ignore.deep_view();
        let mut out: Vec<String> = Vec::new();
        let n = self.found.len();
        let mut i: usize = 0;
        while i < n
            invariant
                i <= n,
                n == self.found.len(),
                fv == self.found.deep_view(),
                iv == self.ignore.deep_view(),
                out.deep_view() == remove_ignored(fv.take(i as int), iv),
            decreases n - i,
        {
            proof {
                assert(fv.take(i as int + 1).drop_last() =~= fv.take(i as int));
                assert(fv.take(i as int + 1).last() == fv[i as int]);
            }
            let ghost pre = out.deep_view();
            let p = &self.found[i];
            if !contains_string(&self.ignore, p) {
                let kept = p.clone();
                out.push(kept);
                proof {
                    assert(out.deep_view() =~= pre.push(fv[i as int]));
                }
            }
            i = i + 1;
            proof {
                assert(out.deep_view() =~= remove_ignored(fv.take(i as int), iv));
            }
        }
        proof {
            assert(fv.take(n as int) =~= fv);
        }
        Some(out)
    }
}

/// Whether `v` holds a string with the same characters as `s`.
fn contains_string(v: &Vec<String>, s: &String) -> (r: bool)
    ensures
        r == v.deep_view().contains(s@),
{
    let n = v.len();
    let mut i: usize = 0;
    while i < n
        invariant
            i <= n,
            n == v.len(),
            forall|j: int| 0 <= j < i ==> v.deep_view()[j] != s@,
        decreases n - i,
    {
        if v[i].eq(s) {
            proof {
                assert(v.deep_view()[i as int] == s@);
            }
            return true;
        }
        i = i + 1;
    }
    proof {
        assert(!v.deep_view().contains(s@)) by {
            if v.deep_view().contains(s@) {
                let j = choose|j: int|
                    0 <= j < v.deep_view().len() && v.deep_view()[j] == s@;
                assert(v.deep_view()[j] != s@);
            }
        }
    }
    false
}

/// Ignore exactness: a path in the ignore set never survives the final
/// filter, whatever was discovered.
pub proof fn lemma_ignore_exactness(ps: Seq<Seq<char>>, ig: Seq<Seq<char>>, p: Seq<char>)
    requires
        ig.contains(p),
    ensures
        !remove_ignored(ps, ig).contains(p),
    decreases ps.len(),
{
    if ps.len() == 0 {
    } else {
        lemma_ignore_exactness(ps.drop_last(), ig, p);
        let r = remove_ignored(ps, ig);
        let head = remove_ignored(ps.drop_last(), ig);
        if r.contains(p) {
            let j = choose|j: int| 0 <= j < r.len() && r[j] == p;
            if j < head.len() {
                assert(head[j] == p);
                assert(head.contains(p));
            } else {
                assert(!ig.contains(ps.last()) && r[j] == ps.last());
            }
        }
    }
}

/// The other face of ignore exactness: a discovered path that matches no
/// entry of the ignore set — one differing by a trailing slash or a relative
/// prefix is no match — survives the final filter.
pub proof fn lemma_ignore_keeps_nonmatches(ps: Seq<Seq<char>>, ig: Seq<Seq<char>>, p: Seq<char>)
    requires
        ps.contains(p),
        !ig.contains(p),
    ensures
        remove_ignored(ps, ig).contains(p),
    decreases ps.len(),
{
    if ps.len() == 0 {
    } else {
        let r = remove_ignored(ps, ig);
        let head = remove_ignored(ps.drop_last(), ig);
        let j = choose|j: int| 0 <= j < ps.len() && ps[j] == p;
        if j < ps.len() - 1 {
            assert(ps.drop_last()[j] == p);
            assert(ps.drop_last().contains(p));
            lemma_ignore_keeps_nonmatches(ps.drop_last(), ig, p);
            let k = choose|k: int| 0 <= k < head.len() && head[k] == p;
            assert(r[k] == p);
            assert(r.contains(p));
        } else {
            assert(ps.last() == p);
            assert(r[r.len() - 1] == p);
            assert(r.contains(p));
        }
    }
}

/// Discovery completeness over one directory listing: there is exactly one
/// kept path per source-file entry, and every kept path is the path of some
/// source-file entry — in particular no entry of another kind contributes.
pub proof fn lemma_discovery_complete(es: Seq<DirEntryV>)
    ensures
        source_paths(es).len() == count_kind(es, EntryKind::SourceFile),
        forall|p: Seq<char>|
            source_paths(es).contains(p) ==> exists|k: int|
                0 <= k < es.len() && es[k].kind == EntryKind::SourceFile && es[k].path == p,
    decreases es.len(),
{
    if es.len() == 0 {
    } else {
        lemma_discovery_complete(es.drop_last());
        let sp = source_paths(es);
        let head = source_paths(es.drop_last());
        assert forall|p: Seq<char>| sp.contains(p) implies exists|k: int|
            0 <= k < es.len() && es[k].kind == EntryKind::SourceFile && es[k].path == p by {
            let j = choose|j: int| 0 <= j < sp.len() && sp[j] == p;
            if j < head.len() {
                assert(head[j] == p);
                assert(head.contains(p));
                let k = choose|k: int|
                    0 <= k < es.drop_last().len() && es.drop_last()[k].kind
                        == EntryKind::SourceFile && es.drop_last()[k].path == p;
                assert(es[k].kind == EntryKind::SourceFile && es[k].path == p);
            } else {
                assert(es.last().kind == EntryKind::SourceFile && es.last().path == p);
                assert(es[es.len() - 1].kind == EntryKind::SourceFile && es[es.len() - 1].path
                    == p);
            }
        }
    }
}

/// A path among the queued subdirectories is the path of a subdirectory
/// entry.
proof fn lemma_subdir_member(es: Seq<DirEntryV>, p: Seq<char>)
    requires
        subdir_paths(es).contains(p),
    ensures
        exists|k: int| 0 <= k < es.len() && es[k].kind == EntryKind::Subdir && es[k].path == p,
    decreases es.len(),
{
    if es.len() == 0 {
    } else {
        let sp = subdir_paths(es);
        let head = subdir_paths(es.drop_last());
        let j = choose|j: int| 0 <= j < sp.len() && sp[j] == p;
        if j < head.len() {
            assert(head[j] == p);
            assert(head.contains(p));
            lemma_subdir_member(es.drop_last(), p);
            let k = choose|k: int|
                0 <= k < es.drop_last().len() && es.drop_last()[k].kind == EntryKind::Subdir
                    && es.drop_last()[k].path == p;
            assert(es[k].kind == EntryKind::Subdir && es[k].path == p);
        } else {
            assert(es.last().kind == EntryKind::Subdir && es.last().path == p);
            assert(es[es.len() - 1].kind == EntryKind::Subdir && es[es.len() - 1].path == p);
        }
    }
}

/// Discovery distinctness over one directory listing: when the entry paths
/// are pairwise distinct, the kept paths are pairwise distinct too, and no
/// kept path is a queued subdirectory path.
pub proof fn lemma_discovery_distinct(es: Seq<DirEntryV>)
    requires
        forall|i: int, j: int| 0 <= i < j < es.len() ==> es[i].path != es[j].path,
    ensures
        forall|i: int, j: int|
            0 <= i < j < source_paths(es).len() ==> source_paths(es)[i] != source_paths(es)[j],
        forall|p: Seq<char>| source_paths(es).contains(p) ==> !subdir_paths(es).contains(p),
    decreases es.len(),
{
    lemma_discovery_complete(es);
    let sp = source_paths(es);
    if es.len() == 0 {
    } else {
        let hd = es.drop_last();
        assert(forall|i: int, j: int| 0 <= i < j < hd.len() ==> hd[i].path != hd[j].path);
        lemma_discovery_distinct(hd);
        lemma_discovery_complete(hd);
        let sph = source_paths(hd);
        assert forall|i: int, j: int| 0 <= i < j < sp.len() implies sp[i] != sp[j] by {
            if j < sph.len() {
                assert(sp[i] == sph[i] && sp[j] == sph[j]);
            } else {
                assert(es.last().kind == EntryKind::SourceFile);
                assert(sp[j] == es.last().path);
                assert(sph[i] == sp[i]);
                assert(sph.contains(sph[i]));
                let k = choose|k: int|
                    0 <= k < hd.len() && hd[k].kind == EntryKind::SourceFile && hd[k].path
                        == sph[i];
                assert(es[k].path == sp[i]);
                assert(es[k].path != es[es.len() - 1].path);
            }
        }
        assert forall|p: Seq<char>| sp.contains(p) implies !subdir_paths(es).contains(p) by {
            let k = choose|k: int|
                0 <= k < es.len() && es[k].kind == EntryKind::SourceFile && es[k].path == p;
            if subdir_paths(es).contains(p) {
                lemma_subdir_member(es, p);
                let m = choose|m: int|
                    0 <= m < es.len() && es[m].kind == EntryKind::Subdir && es[m].path == p;
                assert(k != m);
                if k < m {
                    assert(es[k].path != es[m].path);
                } else {
                    assert(es[m].path != es[k].path);
                }
            }
        }
    }
}

} // verus!
