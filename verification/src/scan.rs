//! A model of a directory tree and a full scan over it.
//!
//! `DirNode` holds, as plain values, everything a scan reads of a directory:
//! its path, which markers it contains, the bytes its status command would
//! capture, and its subdirectories. The spec functions define what one scan
//! of such a tree visits and flags; `run_scan` drives the engine over an
//! in-memory tree and is proved to produce exactly that, which pins the
//! whole pipeline — classification, short-circuiting, completion detection
//! and aggregation — to one deterministic answer per tree.

use vstd::multiset::Multiset;
use vstd::prelude::*;
use vstd::seq_lib::lemma_multiset_commutative;

use crate::engine::Engine;
use crate::vcs::{classify, spec_classify, spec_header, VcsKind};

verus! {

/// One directory as the scan sees it: its path, the markers present in it,
/// the output its status command would capture if it were run here, and its
/// immediate subdirectories. Entries that are not directories never become
/// nodes: the walk skips them.
pub struct DirNode {
    /// The directory's path, as handed to and printed by the scanner.
    pub name: String,
    /// Which marker subdirectories exist inside this directory.
    pub markers: crate::vcs::MarkerSet,
    /// Captured standard output of the status command run in this directory.
    pub status_out: Vec<u8>,
    /// Captured standard error of the status command run in this directory.
    pub status_err: Vec<u8>,
    /// The immediate subdirectories.
    pub children: Vec<DirNode>,
}

/// Whether the status command in this directory reports pending changes:
/// its combined captured output is non-empty.
pub open spec fn spec_dirty(t: DirNode) -> bool {
    t.status_out@.len() + t.status_err@.len() > 0
}

/// The number of directories one scan of `t` visits.
pub open spec fn scan_size(t: DirNode) -> nat
    decreases t,
{
    match spec_classify(t.markers) {
        Some(_) => 1nat,
        None => 1nat + scan_size_list(t.children@),
    }
}

/// The number of directories one scan visits across a list of trees.
pub open spec fn scan_size_list(s: Seq<DirNode>) -> nat
    decreases s,
{
    if s.len() == 0 {
        0nat
    } else {
        scan_size(s[0]) + scan_size_list(s.drop_first())
    }
}

/// The paths one scan of `t` classifies, in depth-first order. A directory
/// with a marker contributes only itself: traversal never descends below a
/// working-copy root.
pub open spec fn scan_visited(t: DirNode) -> Seq<Seq<char>>
    decreases t,
{
    match spec_classify(t.markers) {
        Some(_) => seq![t.name@],
        None => seq![t.name@] + scan_visited_list(t.children@),
    }
}

/// The classified paths across a list of trees, in depth-first order.
pub open spec fn scan_visited_list(s: Seq<DirNode>) -> Seq<Seq<char>>
    decreases s,
{
    if s.len() == 0 {
        Seq::empty()
    } else {
        scan_visited(s[0]) + scan_visited_list(s.drop_first())
    }
}

/// The working-copy roots one scan of `t` flags dirty, with their VCS
/// kinds, in depth-first order.
pub open spec fn scan_flagged(t: DirNode) -> Seq<(Seq<char>, VcsKind)>
    decreases t,
{
    match spec_classify(t.markers) {
        Some(k) => if spec_dirty(t) {
            seq![(t.name@, k)]
        } else {
            Seq::empty()
        },
        None => scan_flagged_list(t.children@),
    }
}

/// The flagged working-copy roots across a list of trees.
pub open spec fn scan_flagged_list(s: Seq<DirNode>) -> Seq<(Seq<char>, VcsKind)>
    decreases s,
{
    if s.len() == 0 {
        Seq::empty()
    } else {
        scan_flagged(s[0]) + scan_flagged_list(s.drop_first())
    }
}

/// A directory containing a recognized marker is a traversal leaf: one scan
/// of it classifies the directory itself and nothing below it, whatever the
/// subtree holds — so its descendants are never visited, never classified
/// and never flagged.
pub proof fn lemma_match_stops_descent(t: DirNode)
    requires
        spec_classify(t.markers) is Some,
    ensures
        scan_visited(t) == seq![t.name@],
        scan_size(t) == 1nat,
        spec_dirty(t) ==> scan_flagged(t) == seq![(t.name@, spec_classify(t.markers)->0)],
        !spec_dirty(t) ==> scan_flagged(t) == Seq::<(Seq<char>, VcsKind)>::empty(),
{
}

/// Splitting a list of trees splits what a scan of it visits and flags.
pub proof fn lemma_scan_list_concat(a: Seq<DirNode>, b: Seq<DirNode>)
    ensures
        scan_size_list(a + b) == scan_size_list(a) + scan_size_list(b),
        scan_visited_list(a + b) == scan_visited_list(a) + scan_visited_list(b),
        scan_flagged_list(a + b) == scan_flagged_list(a) + scan_flagged_list(b),
    decreases a,
{
    if a.len() == 0 {
        assert(a + b =~= b);
        assert(scan_visited_list(a) + scan_visited_list(b) =~= scan_visited_list(b));
        assert(scan_flagged_list(a) + scan_flagged_list(b) =~= scan_flagged_list(b));
    } else {
        assert((a + b).drop_first() =~= a.drop_first() + b);
        assert((a + b)[0] == a[0]);
        lemma_scan_list_concat(a.drop_first(), b);
        assert(scan_visited_list(a + b) =~= scan_visited_list(a) + scan_visited_list(b));
        assert(scan_flagged_list(a + b) =~= scan_flagged_list(a) + scan_flagged_list(b));
    }
}

/// Taking the last tree off a list takes its contribution off the scan.
pub proof fn lemma_scan_list_pop(s: Seq<DirNode>)
    requires
        s.len() > 0,
    ensures
        scan_size_list(s) == scan_size_list(s.drop_last()) + scan_size(s.last()),
        scan_visited_list(s) == scan_visited_list(s.drop_last()) + scan_visited(s.last()),
        scan_flagged_list(s) == scan_flagged_list(s.drop_last()) + scan_flagged(s.last()),
{
    let unit = seq![s.last()];
    assert(s =~= s.drop_last() + unit);
    lemma_scan_list_concat(s.drop_last(), unit);
    assert(unit.drop_first() =~= Seq::<DirNode>::empty());
    reveal_with_fuel(scan_size_list, 2);
    reveal_with_fuel(scan_visited_list, 2);
    reveal_with_fuel(scan_flagged_list, 2);
    assert(scan_visited_list(unit) =~= scan_visited(s.last()));
    assert(scan_flagged_list(unit) =~= scan_flagged(s.last()));
}

/// Moving one element out of the pending part and into the produced part
/// preserves the conservation of the whole, counted as a multiset.
proof fn lemma_shift_mid<X>(produced: Seq<X>, a: Seq<X>, b: Seq<X>, x: X, total: Seq<X>)
    requires
        produced.to_multiset().add((a + (seq![x] + b)).to_multiset()) == total.to_multiset(),
    ensures
        produced.push(x).to_multiset().add((a + b).to_multiset()) == total.to_multiset(),
{
    broadcast use vstd::multiset::group_multiset_axioms;
    broadcast use vstd::seq_lib::group_to_multiset_ensures;

    lemma_multiset_commutative(a, seq![x] + b);
    lemma_multiset_commutative(seq![x], b);
    lemma_multiset_commutative(a, b);
    assert(seq![x] =~= Seq::<X>::empty().push(x));
    assert(Seq::<X>::empty().to_multiset() =~= Multiset::<X>::empty());
    assert(produced.push(x).to_multiset() =~= produced.to_multiset().insert(x));
    assert(produced.push(x).to_multiset().add((a + b).to_multiset()) =~= total.to_multiset());
}

/// What one full run of the scanner reports.
pub struct ScanReport {
    /// The dirty working-copy roots, in completion order.
    pub flagged: Vec<String>,
    /// The header lines printed in output mode, one per flagged root;
    /// empty in count mode, where per-result output is suppressed.
    pub headers: Vec<String>,
    /// The single integer printed in count mode; nothing in output mode.
    pub count: Option<u64>,
    /// The flagged roots with their VCS kinds, as the engine logged them.
    pub log: Ghost<Seq<(Seq<char>, VcsKind)>>,
    /// Every directory classified during the run, in resolution order.
    pub classified: Ghost<Seq<Seq<char>>>,
    /// The engine as the run left it.
    pub end_state: Ghost<Engine>,
}

/// Scans a forest of in-memory directory trees by driving the engine
/// through its work queue, exactly as the unverified shell drives it over a
/// real filesystem: dequeue, classify, then either run the status command
/// (matched) or enqueue the subdirectories (unclassified).
///
/// The run flags exactly the working-copy roots the scan specification
/// flags, classifies exactly the directories it visits — each once — and
/// ends in the complete state. The bound on the number of dirty
/// repositories only keeps the counter within its machine word.
pub fn run_scan(roots: Vec<DirNode>, count_mode: bool) -> (r: ScanReport)
    requires
        scan_flagged_list(roots@).len() < u64::MAX,
    ensures
        r.log@.to_multiset() == scan_flagged_list(roots@).to_multiset(),
        r.classified@.to_multiset() == scan_visited_list(roots@).to_multiset(),
        r.flagged@.len() == r.log@.len(),
        forall|i: int| 0 <= i < r.log@.len() ==> r.flagged@[i]@ == r.log@[i].0,
        count_mode ==> r.count == Some(scan_flagged_list(roots@).len() as u64),
        count_mode ==> r.headers@.len() == 0,
        !count_mode ==> r.count is None,
        !count_mode ==> r.headers@.len() == r.log@.len(),
        !count_mode ==> forall|i: int|
            0 <= i < r.log@.len() ==> r.headers@[i]@ == spec_header(r.log@[i].0, r.log@[i].1),
        r.end_state@.spec_complete(),
        r.end_state@.flagged@ == r.log@,
        r.end_state@.classified@ == r.classified@,
        r.end_state@.count_mode == count_mode,
{
    let ghost roots_seq = roots@;
    let mut names: Vec<String> = Vec::new();
    let mut i: usize = 0;
    while i < roots.len()
        invariant
            i <= roots@.len(),
            names@.len() == i,
            forall|j: int| 0 <= j < i ==> names@[j]@ == roots@[j].name@,
        decreases roots@.len() - i,
    {
        names.push(roots[i].name.clone());
        i = i + 1;
    }
    let mut engine = Engine::new(names, count_mode);
    let mut stack: Vec<DirNode> = roots;
    let mut flagged: Vec<String> = Vec::new();
    let mut headers: Vec<String> = Vec::new();
    proof {
        broadcast use vstd::multiset::group_multiset_axioms;
        broadcast use vstd::seq_lib::group_to_multiset_ensures;

        assert(engine.flagged@.to_multiset() =~= Multiset::<(Seq<char>, VcsKind)>::empty());
        assert(engine.classified@.to_multiset() =~= Multiset::<Seq<char>>::empty());
        assert(engine.flagged@.to_multiset().add(scan_flagged_list(stack@).to_multiset())
            =~= scan_flagged_list(roots_seq).to_multiset());
        assert(engine.classified@.to_multiset().add(scan_visited_list(stack@).to_multiset())
            =~= scan_visited_list(roots_seq).to_multiset());
    }
    loop
        invariant
            engine.wf(),
            !engine.aborted,
            engine.in_flight == 0,
            engine.pending_status == 0,
            engine.count_mode == count_mode,
            engine.queue@.len() == stack@.len(),
            forall|j: int| 0 <= j < stack@.len() ==> engine.queue@[j]@ == stack@[j].name@,
            flagged@.len() == engine.flagged@.len(),
            forall|j: int| 0 <= j < engine.flagged@.len() ==> flagged@[j]@ == engine.flagged@[j].0,
            count_mode ==> headers@.len() == 0,
            !count_mode ==> headers@.len() == engine.flagged@.len(),
            !count_mode ==> forall|j: int|
                0 <= j < engine.flagged@.len() ==> headers@[j]@ == spec_header(
                    engine.flagged@[j].0,
                    engine.flagged@[j].1,
                ),
            engine.flagged@.len() + scan_flagged_list(stack@).len() == scan_flagged_list(
                roots_seq,
            ).len(),
            engine.flagged@.to_multiset().add(scan_flagged_list(stack@).to_multiset())
                == scan_flagged_list(roots_seq).to_multiset(),
            engine.classified@.to_multiset().add(scan_visited_list(stack@).to_multiset())
                == scan_visited_list(roots_seq).to_multiset(),
            scan_flagged_list(roots_seq).len() < u64::MAX,
        ensures
            engine.wf(),
            !engine.aborted,
            engine.in_flight == 0,
            engine.pending_status == 0,
            engine.count_mode == count_mode,
            engine.queue@.len() == 0,
            stack@.len() == 0,
            flagged@.len() == engine.flagged@.len(),
            forall|j: int| 0 <= j < engine.flagged@.len() ==> flagged@[j]@ == engine.flagged@[j].0,
            count_mode ==> headers@.len() == 0,
            !count_mode ==> headers@.len() == engine.flagged@.len(),
            !count_mode ==> forall|j: int|
                0 <= j < engine.flagged@.len() ==> headers@[j]@ == spec_header(
                    engine.flagged@[j].0,
                    engine.flagged@[j].1,
                ),
            engine.flagged@.to_multiset() == scan_flagged_list(roots_seq).to_multiset(),
            engine.classified@.to_multiset() == scan_visited_list(roots_seq).to_multiset(),
            engine.flagged@.len() == scan_flagged_list(roots_seq).len(),
        decreases scan_size_list(stack@),
    {
        let ghost s0 = stack@;
        let topt = engine.next_task();
        match topt {
            None => {
                proof {
                    broadcast use vstd::multiset::group_multiset_axioms;
                    broadcast use vstd::seq_lib::group_to_multiset_ensures;

                    assert(scan_flagged_list(stack@).to_multiset()
                        =~= Multiset::<(Seq<char>, VcsKind)>::empty());
                    assert(scan_visited_list(stack@).to_multiset() =~= Multiset::<Seq<char>>::empty());
                    assert(engine.flagged@.to_multiset() =~= scan_flagged_list(roots_seq).to_multiset());
                    assert(engine.classified@.to_multiset() =~= scan_visited_list(
                        roots_seq,
                    ).to_multiset());
                }
                break;
            }
            Some(path) => {
                let node = stack.pop().unwrap();
                let ghost node_g = s0.last();
                let DirNode { name: _, markers, status_out, status_err, children } = node;
                proof {
                    lemma_scan_list_pop(s0);
                }
                match classify(&markers) {
                    Some(kind) => {
                        let ghost cls0 = engine.classified@;
                        let ghost flg0 = engine.flagged@;
                        engine.resolve_matched(&path, kind);
                        let hdr = engine.report_status(&path, kind, &status_out, &status_err);
                        let nonempty = status_out.len() > 0 || status_err.len() > 0;
                        if nonempty {
                            flagged.push(path);
                        }
                        match hdr {
                            Some(h) => {
                                headers.push(h);
                            }
                            None => {}
                        }
                        proof {
                            let a = scan_flagged_list(s0.drop_last());
                            let va = scan_visited_list(s0.drop_last());
                            assert(path@ == node_g.name@);
                            assert(scan_visited(node_g) == seq![node_g.name@]);
                            assert(va + (seq![node_g.name@] + Seq::<Seq<char>>::empty()) =~= va
                                + seq![node_g.name@]);
                            lemma_shift_mid(
                                cls0,
                                va,
                                Seq::<Seq<char>>::empty(),
                                node_g.name@,
                                scan_visited_list(roots_seq),
                            );
                            assert(va + Seq::<Seq<char>>::empty() =~= va);
                            assert(engine.classified@ == cls0.push(node_g.name@));
                            if nonempty {
                                assert(spec_dirty(node_g));
                                assert(scan_flagged(node_g) == seq![(node_g.name@, kind)]);
                                assert(a + (seq![(node_g.name@, kind)]
                                    + Seq::<(Seq<char>, VcsKind)>::empty()) =~= a + seq![
                                    (node_g.name@, kind),
                                ]);
                                lemma_shift_mid(
                                    flg0,
                                    a,
                                    Seq::<(Seq<char>, VcsKind)>::empty(),
                                    (node_g.name@, kind),
                                    scan_flagged_list(roots_seq),
                                );
                                assert(a + Seq::<(Seq<char>, VcsKind)>::empty() =~= a);
                                assert(engine.flagged@ == flg0.push((node_g.name@, kind)));
                            } else {
                                assert(!spec_dirty(node_g));
                                assert(scan_flagged(node_g)
                                    == Seq::<(Seq<char>, VcsKind)>::empty());
                                assert(a + Seq::<(Seq<char>, VcsKind)>::empty() =~= a);
                                assert(scan_flagged_list(s0) == a);
                            }
                        }
                    }
                    None => {
                        let mut child_names: Vec<String> = Vec::new();
                        let mut ci: usize = 0;
                        while ci < children.len()
                            invariant
                                ci <= children@.len(),
                                child_names@.len() == ci,
                                forall|j: int|
                                    0 <= j < ci ==> child_names@[j]@ == children@[j].name@,
                            decreases children@.len() - ci,
                        {
                            child_names.push(children[ci].name.clone());
                            ci = ci + 1;
                        }
                        let ghost cls0 = engine.classified@;
                        engine.resolve_expanded(&path, child_names);
                        let ghost kids = children@;
                        let mut incoming = children;
                        stack.append(&mut incoming);
                        proof {
                            lemma_scan_list_concat(s0.drop_last(), kids);
                            let a = scan_flagged_list(s0.drop_last());
                            let va = scan_visited_list(s0.drop_last());
                            assert(path@ == node_g.name@);
                            assert(kids == node_g.children@);
                            assert(scan_flagged(node_g) == scan_flagged_list(kids));
                            assert(scan_flagged_list(stack@) == scan_flagged_list(s0));
                            assert(scan_visited(node_g) == seq![node_g.name@]
                                + scan_visited_list(kids));
                            lemma_shift_mid(
                                cls0,
                                va,
                                scan_visited_list(kids),
                                node_g.name@,
                                scan_visited_list(roots_seq),
                            );
                            assert(engine.classified@ == cls0.push(node_g.name@));
                            assert(scan_visited_list(stack@) == va + scan_visited_list(kids));
                            assert(scan_size(node_g) == 1 + scan_size_list(kids));
                        }
                    }
                }
            }
        }
    }
    let count = engine.final_count();
    ScanReport {
        flagged,
        headers,
        count,
        log: Ghost(engine.flagged@),
        classified: Ghost(engine.classified@),
        end_state: Ghost(engine),
    }
}

/// Every directory is classified at most once: when the directories a scan
/// can reach are pairwise distinct — as the nodes of a real directory tree
/// are — a run that classifies exactly the reachable set, as `run_scan`
/// guarantees, classifies no directory twice.
pub proof fn lemma_classified_at_most_once(classified: Seq<Seq<char>>, roots: Seq<DirNode>)
    requires
        classified.to_multiset() == scan_visited_list(roots).to_multiset(),
        scan_visited_list(roots).no_duplicates(),
    ensures
        classified.no_duplicates(),
{
    scan_visited_list(roots).lemma_multiset_has_no_duplicates();
    classified.lemma_multiset_has_no_duplicates_conv();
}

/// The complete state is reached only after every reachable directory has
/// been classified: whenever a driver's queue mirrors the directories still
/// to visit and the classified log conserves the reachable set — as
/// `run_scan` maintains throughout — an engine observed complete has
/// classified exactly the directories one scan of the forest reaches.
pub proof fn lemma_complete_only_after_all_classified(
    e: Engine,
    pending: Seq<DirNode>,
    roots: Seq<DirNode>,
)
    requires
        e.queue@.len() == pending.len(),
        e.classified@.to_multiset().add(scan_visited_list(pending).to_multiset())
            == scan_visited_list(roots).to_multiset(),
        e.spec_complete(),
    ensures
        e.classified@.to_multiset() == scan_visited_list(roots).to_multiset(),
{
    broadcast use vstd::multiset::group_multiset_axioms;
    broadcast use vstd::seq_lib::group_to_multiset_ensures;

    assert(pending.len() == 0);
    assert(scan_visited_list(pending).to_multiset() =~= Multiset::<Seq<char>>::empty());
    assert(e.classified@.to_multiset() =~= scan_visited_list(roots).to_multiset());
}

/// The two modes agree: the headers a run prints in output mode are, as a
/// set, exactly the flagged repositories rendered one header apiece — the
/// same set whose size count mode prints. Order may vary with completion
/// order; content may not.
pub proof fn lemma_modes_agree(r: ScanReport)
    requires
        r.headers@.len() == r.log@.len(),
        forall|i: int|
            0 <= i < r.log@.len() ==> r.headers@[i]@ == spec_header(r.log@[i].0, r.log@[i].1),
    ensures
        r.headers@.map_values(|h: String| h@).to_multiset() == r.log@.map_values(
            |e: (Seq<char>, VcsKind)| spec_header(e.0, e.1),
        ).to_multiset(),
        r.headers@.len() == r.log@.len(),
{
    assert(r.headers@.map_values(|h: String| h@) =~= r.log@.map_values(
        |e: (Seq<char>, VcsKind)| spec_header(e.0, e.1),
    ));
}

/// Scanning an unchanged tree twice flags the same set of repositories both
/// times: the flagged set of any run is pinned to the one the scan
/// specification computes from the tree, so two runs over the same tree —
/// whatever order their workers complete in — agree.
pub proof fn lemma_scan_deterministic(
    roots: Seq<DirNode>,
    first: Multiset<(Seq<char>, VcsKind)>,
    second: Multiset<(Seq<char>, VcsKind)>,
)
    requires
        first == scan_flagged_list(roots).to_multiset(),
        second == scan_flagged_list(roots).to_multiset(),
    ensures
        first == second,
{
}

} // verus!
