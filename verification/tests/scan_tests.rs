use repo_scan::engine::Engine;
use repo_scan::scan::{run_scan, DirNode, ScanReport};
use repo_scan::vcs::{classify, make_header, marker_dir, status_command, vcs_name, MarkerSet, VcsKind};

fn markers(git: bool, hg: bool, svn: bool) -> MarkerSet {
    MarkerSet { git, hg, svn }
}

fn node(name: &str, m: MarkerSet, out: &[u8], err: &[u8], children: Vec<DirNode>) -> DirNode {
    DirNode {
        name: name.to_owned(),
        markers: m,
        status_out: out.to_vec(),
        status_err: err.to_vec(),
        children,
    }
}

fn scenario_roots() -> Vec<DirNode> {
    // root /a: a git working copy with non-empty status output, holding a
    // nested git working copy /a/sub that must never be visited
    let a_sub = node("/a/sub", markers(true, false, false), b" M x\n", b"", Vec::new());
    let a = node("/a", markers(true, false, false), b" M f\n", b"", vec![a_sub]);
    // root /b: a mercurial working copy with empty status output
    let b = node("/b", markers(false, true, false), b"", b"", Vec::new());
    // root /c: unclassified, with a dirty subversion working copy below it
    let c_d = node("/c/d", markers(false, false, true), b"M       y\n", b"", Vec::new());
    let c = node("/c", markers(false, false, false), b"", b"", vec![c_d]);
    vec![a, b, c]
}

fn sorted(mut v: Vec<String>) -> Vec<String> {
    v.sort();
    v
}

#[test]
fn classify_priority_git_beats_hg() {
    assert_eq!(classify(&markers(true, true, false)), Some(VcsKind::Git));
    assert_eq!(classify(&markers(true, true, true)), Some(VcsKind::Git));
    assert_eq!(classify(&markers(true, false, false)), Some(VcsKind::Git));
}

#[test]
fn classify_priority_hg_beats_svn() {
    assert_eq!(classify(&markers(false, true, true)), Some(VcsKind::Mercurial));
}

#[test]
fn classify_svn_alone() {
    assert_eq!(classify(&markers(false, false, true)), Some(VcsKind::Subversion));
}

#[test]
fn classify_no_marker() {
    assert_eq!(classify(&markers(false, false, false)), None);
}

#[test]
fn vcs_table_matches_fixed_configuration() {
    assert_eq!(vcs_name(VcsKind::Git), "git");
    assert_eq!(vcs_name(VcsKind::Mercurial), "mercurial");
    assert_eq!(vcs_name(VcsKind::Subversion), "subversion");
    assert_eq!(marker_dir(VcsKind::Git), ".git");
    assert_eq!(marker_dir(VcsKind::Mercurial), ".hg");
    assert_eq!(marker_dir(VcsKind::Subversion), ".svn");
    assert_eq!(
        status_command(VcsKind::Git),
        vec!["git", "-c", "color.status=always", "status", "-s"]
    );
    assert_eq!(
        status_command(VcsKind::Mercurial),
        vec!["hg", "--config", "extensions.color=!", "st"]
    );
    assert_eq!(status_command(VcsKind::Subversion), vec!["svn", "st", "-v"]);
}

#[test]
fn header_format() {
    assert_eq!(make_header(&"/a".to_owned(), VcsKind::Git), "/a - git");
    assert_eq!(
        make_header(&"/c/d".to_owned(), VcsKind::Subversion),
        "/c/d - subversion"
    );
}

#[test]
fn scenario_output_mode() {
    let r: ScanReport = run_scan(scenario_roots(), false);
    assert_eq!(sorted(r.flagged), vec!["/a".to_owned(), "/c/d".to_owned()]);
    assert_eq!(
        sorted(r.headers),
        vec!["/a - git".to_owned(), "/c/d - subversion".to_owned()]
    );
    assert_eq!(r.count, None);
}

#[test]
fn scenario_count_mode() {
    let r = run_scan(scenario_roots(), true);
    assert_eq!(r.count, Some(2));
    assert_eq!(sorted(r.flagged), vec!["/a".to_owned(), "/c/d".to_owned()]);
    assert!(r.headers.is_empty());
}

#[test]
fn nested_working_copy_never_visited() {
    // /a matches git, so its nested dirty working copy must not be flagged
    let r = run_scan(scenario_roots(), false);
    assert!(!r.flagged.contains(&"/a/sub".to_owned()));
}

#[test]
fn clean_repository_produces_no_output() {
    let roots = vec![node("/b", markers(false, true, false), b"", b"", Vec::new())];
    let r = run_scan(roots, false);
    assert!(r.flagged.is_empty());
    assert!(r.headers.is_empty());
}

#[test]
fn stderr_alone_marks_dirty() {
    let roots = vec![node("/w", markers(true, false, false), b"", b"warn\n", Vec::new())];
    let r = run_scan(roots, true);
    assert_eq!(r.count, Some(1));
}

#[test]
fn rescan_of_unchanged_tree_flags_same_set() {
    let first = sorted(run_scan(scenario_roots(), false).flagged);
    let second = sorted(run_scan(scenario_roots(), false).flagged);
    assert_eq!(first, second);
}

#[test]
fn empty_forest_counts_zero() {
    let r = run_scan(Vec::new(), true);
    assert_eq!(r.count, Some(0));
    assert!(r.flagged.is_empty());
}

#[test]
fn deep_unclassified_chain_reaches_leaf() {
    let leaf = node("/x/y/z", markers(true, false, false), b"dirty", b"", Vec::new());
    let mid = node("/x/y", markers(false, false, false), b"", b"", vec![leaf]);
    let top = node("/x", markers(false, false, false), b"", b"", vec![mid]);
    let r = run_scan(vec![top], true);
    assert_eq!(r.count, Some(1));
}

#[test]
fn engine_completion_protocol() {
    let mut e = Engine::new(vec!["/r".to_owned()], true);
    assert!(!e.is_complete()); // queue holds a task
    let t = e.next_task();
    assert_eq!(t, Some("/r".to_owned()));
    assert!(!e.is_complete()); // the task is in flight
    e.resolve_matched(&"/r".to_owned(), VcsKind::Git);
    assert!(!e.is_complete()); // a status run is outstanding
    let hdr = e.report_status(&"/r".to_owned(), VcsKind::Git, &b"x".to_vec(), &Vec::new());
    assert_eq!(hdr, None); // count mode suppresses per-result output
    assert!(e.is_complete());
    assert_eq!(e.final_count(), Some(1));
}

#[test]
fn engine_output_mode_returns_header() {
    let mut e = Engine::new(vec!["/r".to_owned()], false);
    let t = e.next_task();
    assert_eq!(t, Some("/r".to_owned()));
    e.resolve_matched(&"/r".to_owned(), VcsKind::Mercurial);
    let hdr = e.report_status(&"/r".to_owned(), VcsKind::Mercurial, &Vec::new(), &b"e".to_vec());
    assert_eq!(hdr, Some("/r - mercurial".to_owned()));
    assert_eq!(e.final_count(), None); // output mode prints no count
}

#[test]
fn engine_match_leaves_queue_untouched() {
    let mut e = Engine::new(vec!["/p".to_owned(), "/q".to_owned()], true);
    let t = e.next_task();
    assert_eq!(t, Some("/q".to_owned()));
    e.resolve_matched(&"/q".to_owned(), VcsKind::Git);
    // the matched task enqueued nothing: only /p remains
    assert_eq!(e.next_task(), Some("/p".to_owned()));
}

#[test]
fn aborted_engine_hands_out_no_work_and_no_count() {
    let mut e = Engine::new(vec!["/r".to_owned()], true);
    e.fatal();
    assert_eq!(e.next_task(), None);
    assert!(!e.is_complete());
    assert_eq!(e.final_count(), None);
}

#[test]
fn abort_after_partial_work_prints_no_count() {
    let mut e = Engine::new(vec!["/a".to_owned(), "/b".to_owned()], true);
    let t = e.next_task().unwrap();
    e.resolve_matched(&t, VcsKind::Git);
    let _ = e.report_status(&t, VcsKind::Git, &b"x".to_vec(), &Vec::new());
    e.fatal(); // a fatal error before /a is processed
    assert_eq!(e.final_count(), None);
}
