//! Version-control systems known to the scanner: their marker directories,
//! their status commands, and the priority-ordered classification of a
//! directory from the markers found in it.

use vstd::prelude::*;
use vstd::string::StringExecFns;

verus! {

/// The version-control systems the scanner recognizes, in priority order.
#[derive(Clone, Copy, PartialEq, Eq, Structural, Debug)]
pub enum VcsKind {
    Git,
    Mercurial,
    Subversion,
}

/// Which marker subdirectories were found inside one directory.
///
/// The filesystem existence tests themselves are I/O and happen outside the
/// library; classification from their outcomes is pure and verified.
#[derive(Clone, Copy, PartialEq, Eq, Structural, Debug)]
pub struct MarkerSet {
    pub git: bool,
    pub hg: bool,
    pub svn: bool,
}

/// The classification rule: the first marker in the fixed priority order
/// git, mercurial, subversion wins; a directory with no marker is
/// unclassified.
pub open spec fn spec_classify(m: MarkerSet) -> Option<VcsKind> {
    if m.git {
        Some(VcsKind::Git)
    } else if m.hg {
        Some(VcsKind::Mercurial)
    } else {
        if m.svn {
            Some(VcsKind::Subversion)
        } else {
            None
        }
    }
}

/// Classifies a directory from the markers found in it, returning the
/// highest-priority match or `None` when no marker is present.
pub fn classify(m: &MarkerSet) -> (r: Option<VcsKind>)
    ensures
        r == spec_classify(*m),
{
    if m.git {
        Some(VcsKind::Git)
    } else if m.hg {
        Some(VcsKind::Mercurial)
    } else if m.svn {
        Some(VcsKind::Subversion)
    } else {
        None
    }
}

/// A directory holding both a git and a mercurial marker (and possibly a
/// subversion one too) always classifies as git: priority is fixed and
/// total, so at most one status command ever runs per directory.
pub proof fn lemma_marker_priority(m: MarkerSet)
    ensures
        m.git ==> spec_classify(m) == Some(VcsKind::Git),
        !m.git && m.hg ==> spec_classify(m) == Some(VcsKind::Mercurial),
        !m.git && !m.hg && m.svn ==> spec_classify(m) == Some(VcsKind::Subversion),
        !m.git && !m.hg && !m.svn ==> spec_classify(m) is None,
{
}

/// The display name of a VCS, as it appears in printed headers.
pub open spec fn spec_vcs_name(k: VcsKind) -> Seq<char> {
    match k {
        VcsKind::Git => "git"@,
        VcsKind::Mercurial => "mercurial"@,
        VcsKind::Subversion => "subversion"@,
    }
}

/// Returns the display name of a VCS.
pub fn vcs_name(k: VcsKind) -> (r: &'static str)
    ensures
        r@ == spec_vcs_name(k),
{
    match k {
        VcsKind::Git => "git",
        VcsKind::Mercurial => "mercurial",
        VcsKind::Subversion => "subversion",
    }
}

/// The marker subdirectory whose presence identifies a working copy of `k`.
pub open spec fn spec_marker_dir(k: VcsKind) -> Seq<char> {
    match k {
        VcsKind::Git => ".git"@,
        VcsKind::Mercurial => ".hg"@,
        VcsKind::Subversion => ".svn"@,
    }
}

/// Returns the marker subdirectory name for a VCS.
pub fn marker_dir(k: VcsKind) -> (r: &'static str)
    ensures
        r@ == spec_marker_dir(k),
{
    match k {
        VcsKind::Git => ".git",
        VcsKind::Mercurial => ".hg",
        VcsKind::Subversion => ".svn",
    }
}

/// The argument vector of the status command for a VCS, first element the
/// executable name.
pub open spec fn spec_status_command(k: VcsKind) -> Seq<Seq<char>> {
    match k {
        VcsKind::Git => seq!["git"@, "-c"@, "color.status=always"@, "status"@, "-s"@],
        VcsKind::Mercurial => seq!["hg"@, "--config"@, "extensions.color=!"@, "st"@],
        VcsKind::Subversion => seq!["svn"@, "st"@, "-v"@],
    }
}

/// Builds the status command for a VCS as a fresh argument vector.
pub fn status_command(k: VcsKind) -> (r: Vec<String>)
    ensures
        r.deep_view() == spec_status_command(k),
{
    let mut r: Vec<String> = Vec::new();
    match k {
        VcsKind::Git => {
            r.push("git".to_owned());
            r.push("-c".to_owned());
            r.push("color.status=always".to_owned());
            r.push("status".to_owned());
            r.push("-s".to_owned());
        }
        VcsKind::Mercurial => {
            r.push("hg".to_owned());
            r.push("--config".to_owned());
            r.push("extensions.color=!".to_owned());
            r.push("st".to_owned());
        }
        VcsKind::Subversion => {
            r.push("svn".to_owned());
            r.push("st".to_owned());
            r.push("-v".to_owned());
        }
    }
    proof {
        assert(r.deep_view() =~= spec_status_command(k));
    }
    r
}

/// The one-line header printed above a dirty repository's status output.
pub open spec fn spec_header(path: Seq<char>, k: VcsKind) -> Seq<char> {
    path + " - "@ + spec_vcs_name(k)
}

/// Builds the header line `<path> - <vcs name>` for a dirty repository.
pub fn make_header(path: &String, k: VcsKind) -> (r: String)
    ensures
        r@ == spec_header(path@, k),
{
    let mut r = path.clone();
    r.append(" - ");
    r.append(vcs_name(k));
    r
}

} // verus!
