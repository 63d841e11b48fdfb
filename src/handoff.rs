//! Hand-off of files that the operating system asks the viewer to open,
//! from launch arguments or later requests, to the user interface, which
//! takes them one at a time, oldest first.

use vstd::prelude::*;
use crate::paths::{is_openable, openable_path, trimmed};

verus! {

/// `q` after a request to open `p`: appended unless already queued.
pub open spec fn with_path(q: Seq<Seq<char>>, p: Seq<char>) -> Seq<Seq<char>> {
    if q.contains(p) {
        q
    } else {
        q.push(p)
    }
}

/// `q` after requests to open each of `ps`, in order.
pub open spec fn with_paths(q: Seq<Seq<char>>, ps: Seq<Seq<char>>) -> Seq<Seq<char>>
    decreases ps.len(),
{
    if ps.len() == 0 {
        q
    } else {
        with_path(with_paths(q, ps.drop_last()), ps.last())
    }
}

/// The files that launch arguments name, trimmed, in order.
pub open spec fn launch_paths_of(args: Seq<Seq<char>>) -> Seq<Seq<char>>
    decreases args.len(),
{
    if args.len() == 0 {
        Seq::empty()
    } else if is_openable(args.last()) {
        launch_paths_of(args.drop_last()).push(trimmed(args.last()))
    } else {
        launch_paths_of(args.drop_last())
    }
}

pub open spec fn views_of(v: Seq<String>) -> Seq<Seq<char>> {
    v.map_values(|s: String| s@)
}

/// The paths that wait for the user interface, oldest first, each once.
pub struct PendingOpenQueue {
    paths: Vec<String>,
}

impl View for PendingOpenQueue {
    type V = Seq<Seq<char>>;

    closed spec fn view(&self) -> Seq<Seq<char>> {
        views_of(self.paths@)
    }
}

impl PendingOpenQueue {
    /// No path is queued twice.
    pub open spec fn wf(&self) -> bool {
        self@.no_duplicates()
    }

    /// An empty queue.
    pub fn new() -> (r: Self)
        ensures
            r.wf(),
            r@ == Seq::<Seq<char>>::empty(),
    {
        let r = PendingOpenQueue { paths: Vec::new() };
        assert(r@ =~= Seq::<Seq<char>>::empty());
        r
    }

    /// A queue holding `paths` in order, each once: the files that the
    /// process was launched with.
    pub fn seed(paths: &Vec<String>) -> (r: Self)
        ensures
            r.wf(),
            r@ == with_paths(Seq::empty(), views_of(paths@)),
    {
        let mut q = PendingOpenQueue::new();
        let mut i: usize = 0;
        while i < paths.len()
            invariant
                i <= paths@.len(),
                q.wf(),
                q@ == with_paths(Seq::empty(), views_of(paths@).take(i as int)),
            decreases paths@.len() - i,
        {
            q.enqueue(paths[i].clone());
            assert(views_of(paths@).take(i + 1).drop_last() =~= views_of(paths@).take(i as int));
            i = i + 1;
        }
        assert(views_of(paths@).take(i as int) =~= views_of(paths@));
        q
    }

    /// Number of queued paths.
    pub fn len(&self) -> (r: usize)
        ensures
            r == self@.len(),
    {
        self.paths.len()
    }

    /// Whether no path is queued.
    pub fn is_empty(&self) -> (r: bool)
        ensures
            r == (self@.len() == 0),
    {
        self.paths.len() == 0
    }

    /// Whether `path` is queued.
    pub fn contains(&self, path: &String) -> (r: bool)
        ensures
            r == self@.contains(path@),
    {
        let mut i: usize = 0;
        while i < self.paths.len()
            invariant
                i <= self@.len(),
                self@ == views_of(self.paths@),
                forall|k: int| 0 <= k < i ==> self@[k] != path@,
            decreases self@.len() - i,
        {
            if self.paths[i] == *path {
                assert(self@[i as int] == path@);
                return true;
            }
            i = i + 1;
        }
        false
    }

    /// Queues `path` unless it is queued already; returns whether it was added.
    pub fn enqueue(&mut self, path: String) -> (r: bool)
        requires
            old(self).wf(),
        ensures
            final(self).wf(),
            final(self)@ == with_path(old(self)@, path@),
            r == !old(self)@.contains(path@),
    {
        if self.contains(&path) {
            false
        } else {
            let ghost before = self@;
            self.paths.push(path);
            assert(self@ =~= before.push(path@));
            assert(self@.no_duplicates()) by {
                assert forall|i: int, j: int|
                    0 <= i < self@.len() && 0 <= j < self@.len() && i != j implies self@[i]
                    != self@[j] by {
                    if i == before.len() {
                        assert(before[j] != path@);
                    } else if j == before.len() {
                        assert(before[i] != path@);
                    }
                }
            }
            true
        }
    }

    /// Removes and returns the oldest queued path, if any.
    pub fn take_next(&mut self) -> (r: Option<String>)
        requires
            old(self).wf(),
        ensures
            final(self).wf(),
            old(self)@.len() == 0 ==> r is None && final(self)@ == old(self)@,
            old(self)@.len() > 0 ==> r is Some && r->Some_0@ == old(self)@[0] && final(self)@
                == old(self)@.drop_first(),
    {
        if self.paths.len() == 0 {
            None
        } else {
            let ghost before = self@;
            let p = self.paths.remove(0);
            assert(self@ =~= before.drop_first());
            assert(self@.no_duplicates()) by {
                assert forall|i: int, j: int|
                    0 <= i < self@.len() && 0 <= j < self@.len() && i != j implies self@[i]
                    != self@[j] by {
                    assert(self@[i] == before[i + 1]);
                    assert(self@[j] == before[j + 1]);
                }
            }
            Some(p)
        }
    }
}

/// The files named by launch arguments, trimmed, in order; other arguments
/// (flags, names of other files) are left out.
pub fn launch_paths(args: &Vec<String>) -> (r: Vec<String>)
    ensures
        views_of(r@) == launch_paths_of(views_of(args@)),
{
    let mut out: Vec<String> = Vec::new();
    let mut i: usize = 0;
    while i < args.len()
        invariant
            i <= args@.len(),
            views_of(out@) == launch_paths_of(views_of(args@).take(i as int)),
        decreases args@.len() - i,
    {
        let ghost before = out@;
        assert(views_of(args@).take(i + 1).drop_last() =~= views_of(args@).take(i as int));
        match openable_path(args[i].as_str()) {
            Some(p) => {
                out.push(p);
                assert(views_of(out@) =~= views_of(before).push(trimmed(args@[i as int]@)));
            },
            None => {},
        }
        i = i + 1;
    }
    assert(views_of(args@).take(i as int) =~= views_of(args@));
    out
}

/// Asking twice to open the same path queues it once.
pub proof fn lemma_enqueue_twice_is_once(q: Seq<Seq<char>>, p: Seq<char>)
    ensures
        with_path(with_path(q, p), p) == with_path(q, p),
        with_path(q, p).contains(p),
{
    if !q.contains(p) {
        assert(q.push(p)[q.len() as int] == p);
    }
}

/// Requests keep their order: a path already waiting keeps its place, and
/// a new one goes after all that wait.
pub proof fn lemma_enqueue_keeps_order(q: Seq<Seq<char>>, p: Seq<char>)
    ensures
        with_path(q, p).take(q.len() as int) == q,
        !q.contains(p) ==> with_path(q, p).last() == p,
{
    assert(with_path(q, p).take(q.len() as int) =~= q);
}

/// Seeding with launch paths hands the first of them out first; seeding
/// with one path leaves nothing after it has been taken.
pub proof fn lemma_seed_hands_out_first(ps: Seq<Seq<char>>)
    requires
        ps.len() > 0,
    ensures
        with_paths(Seq::empty(), ps).len() > 0,
        with_paths(Seq::empty(), ps)[0] == ps[0],
        ps.len() == 1 ==> with_paths(Seq::empty(), ps).drop_first().len() == 0,
    decreases ps.len(),
{
    if ps.len() == 1 {
        assert(ps.drop_last() =~= Seq::<Seq<char>>::empty());
        assert(with_paths(Seq::empty(), ps.drop_last()) =~= Seq::<Seq<char>>::empty());
    } else {
        lemma_seed_hands_out_first(ps.drop_last());
        assert(ps.drop_last()[0] == ps[0]);
    }
}

} // verus!
