//! Decisions over a directory listing: the depth-first search for the muxer
//! executable in an extracted tree (skipping `node_modules` and `.git`,
//! first match in listing order wins), and the choice of which top-level
//! entries the post-extraction cleanup removes.  The tree itself is read
//! from disk outside this crate and handed in as plain data, which makes the
//! search order explicit and deterministic.

use vstd::prelude::*;
use vstd::string::*;
use crate::strutil::contains_seq;
use crate::strutil::contains_sub;
use crate::strutil::str_eq;

verus! {

/// One node of a directory tree: a file, or a directory with its children in
/// listing order.
pub struct FsNode {
    pub name: String,
    pub kind: FsNodeKind,
}

pub enum FsNodeKind {
    File,
    Dir(Vec<FsNode>),
}

/// Directories that the search never descends into.
pub open spec fn skip_dir_name(name: Seq<char>) -> bool {
    name == "node_modules"@ || name == ".git"@
}

/// Depth-first search of one node: a file matches by exact name; a directory
/// that is not skipped is searched recursively.  The result is the path from
/// the searched root to the match, as name components.
pub open spec fn spec_find_node(node: FsNode, target: Seq<char>) -> Option<Seq<Seq<char>>>
    decreases node,
{
    match node.kind {
        FsNodeKind::File => if node.name@ == target {
            Some(seq![node.name@])
        } else {
            None
        },
        FsNodeKind::Dir(children) => {
            if skip_dir_name(node.name@) {
                None
            } else {
                match spec_find_list(children@, target) {
                    Some(p) => Some(seq![node.name@] + p),
                    None => None,
                }
            }
        },
    }
}

/// Depth-first search of a sibling list, in listing order; the first match
/// wins.
pub open spec fn spec_find_list(nodes: Seq<FsNode>, target: Seq<char>) -> Option<Seq<Seq<char>>>
    decreases nodes,
{
    if nodes.len() == 0 {
        None
    } else {
        match spec_find_node(nodes[0], target) {
            Some(p) => Some(p),
            None => spec_find_list(nodes.subrange(1, nodes.len() as int), target),
        }
    }
}

/// Searches a tree's top-level entries depth-first for a file named
/// `target`, skipping `node_modules` and `.git` directories; returns the
/// path components from the searched root to the first match in listing
/// order, or nothing when no entry anywhere matches.
pub fn find_in_entries(entries: &Vec<FsNode>, target: &str) -> (r: Option<Vec<String>>)
    ensures
        match r {
            Some(p) => spec_find_list(entries@, target@) == Some(p.deep_view()),
            None => spec_find_list(entries@, target@) is None,
        },
    decreases entries@,
{
    let n = entries.len();
    proof {
        assert(entries@.subrange(0, n as int) =~= entries@);
    }
    let mut i: usize = 0;
    while i < n
        invariant
            i <= n,
            n == entries@.len(),
            spec_find_list(entries@, target@) == spec_find_list(
                entries@.subrange(i as int, n as int),
                target@,
            ),
        decreases n - i,
    {
        let node = &entries[i];
        proof {
            let rest = entries@.subrange(i as int, n as int);
            assert(rest[0] == entries@[i as int]);
            assert(rest.subrange(1, rest.len() as int) =~= entries@.subrange(
                i as int + 1,
                n as int,
            ));
        }
        match &node.kind {
            FsNodeKind::File => {
                if str_eq(node.name.as_str(), target) {
                    let mut path: Vec<String> = Vec::new();
                    path.push(node.name.clone());
                    proof {
                        assert(path.deep_view() =~= seq![node.name@]);
                    }
                    return Some(path);
                }
            },
            FsNodeKind::Dir(children) => {
                let skip = str_eq(node.name.as_str(), "node_modules") || str_eq(
                    node.name.as_str(),
                    ".git",
                );
                if !skip {
                    proof {
                        assert(decreases_to!(entries@ => entries@[i as int]));
                        assert(decreases_to!(entries@[i as int] => entries@[i as int].kind));
                        assert(decreases_to!(entries@[i as int].kind => children@));
                    }
                    match find_in_entries(children, target) {
                        Some(sub) => {
                            let ghost sub_dv = sub.deep_view();
                            let mut path = sub;
                            path.insert(0, node.name.clone());
                            proof {
                                assert(path.deep_view() =~~= seq![node.name@] + sub_dv);
                            }
                            return Some(path);
                        },
                        None => {},
                    }
                }
            },
        }
        proof {
            assert(spec_find_node(entries@[i as int], target@) is None);
        }
        i += 1;
    }
    None
}

/// Law: a successful search of one node yields a non-empty path whose last
/// component is exactly the searched-for name.
pub proof fn lemma_find_node_path_shape(node: FsNode, target: Seq<char>)
    ensures
        spec_find_node(node, target) matches Some(p) ==> p.len() >= 1 && p.last() == target,
    decreases node,
{
    match node.kind {
        FsNodeKind::File => {},
        FsNodeKind::Dir(children) => {
            if !skip_dir_name(node.name@) {
                lemma_find_list_path_shape(children@, target);
                match spec_find_list(children@, target) {
                    Some(inner) => {
                        assert((seq![node.name@] + inner).last() == inner.last());
                    },
                    None => {},
                }
            }
        },
    }
}

/// Law: a successful search of a sibling list yields a non-empty path whose
/// last component is exactly the searched-for name.
pub proof fn lemma_find_list_path_shape(nodes: Seq<FsNode>, target: Seq<char>)
    ensures
        spec_find_list(nodes, target) matches Some(p) ==> p.len() >= 1 && p.last() == target,
    decreases nodes,
{
    if nodes.len() > 0 {
        lemma_find_node_path_shape(nodes[0], target);
        lemma_find_list_path_shape(nodes.subrange(1, nodes.len() as int), target);
    }
}

/// One entry of the top level of the libraries directory.
pub struct DirEntry {
    pub name: String,
    pub is_dir: bool,
}

/// The cleanup removes exactly the directories whose name holds the
/// substring `ffmpeg`.
pub open spec fn is_cleanup_target(e: DirEntry) -> bool {
    e.is_dir && contains_seq(e.name@, "ffmpeg"@)
}

/// The names of the entries the cleanup removes, in listing order.
pub open spec fn spec_cleanup_targets(entries: Seq<DirEntry>) -> Seq<Seq<char>>
    decreases entries.len(),
{
    if entries.len() == 0 {
        Seq::empty()
    } else if is_cleanup_target(entries.last()) {
        spec_cleanup_targets(entries.drop_last()) + seq![entries.last().name@]
    } else {
        spec_cleanup_targets(entries.drop_last())
    }
}

/// Selects which top-level entries the post-extraction cleanup removes: the
/// directories whose name holds `ffmpeg`, in listing order.
pub fn cleanup_targets(entries: &Vec<DirEntry>) -> (r: Vec<String>)
    ensures
        r.deep_view() == spec_cleanup_targets(entries@),
{
    let n = entries.len();
    let mut out: Vec<String> = Vec::new();
    let mut i: usize = 0;
    while i < n
        invariant
            i <= n,
            n == entries@.len(),
            out.deep_view() =~= spec_cleanup_targets(entries@.subrange(0, i as int)),
        decreases n - i,
    {
        let e = &entries[i];
        if e.is_dir && contains_sub(e.name.as_str(), "ffmpeg") {
            out.push(e.name.clone());
        }
        i += 1;
        proof {
            let pre = entries@.subrange(0, i as int);
            assert(pre.drop_last() =~= entries@.subrange(0, i as int - 1));
            assert(pre.last() == entries@[i as int - 1]);
            assert(out.deep_view() =~= spec_cleanup_targets(pre));
        }
    }
    proof {
        assert(entries@.subrange(0, n as int) =~= entries@);
    }
    out
}


/// Some entry of the listing is a cleanup target bearing this very name.
pub open spec fn some_target_has_name(entries: Seq<DirEntry>, name: Seq<char>) -> bool {
    exists|k: int|
        0 <= k < entries.len() && #[trigger] is_cleanup_target(entries[k]) && entries[k].name@
            == name
}

/// Law: the cleanup selection is exact — every selected name belongs to a
/// directory entry whose name holds `ffmpeg`, and every such entry's name is
/// selected.
pub proof fn lemma_cleanup_targets_exact(entries: Seq<DirEntry>)
    ensures
        forall|j: int|
            0 <= j < spec_cleanup_targets(entries).len() ==> some_target_has_name(
                entries,
                #[trigger] spec_cleanup_targets(entries)[j],
            ),
        forall|k: int|
            0 <= k < entries.len() && #[trigger] is_cleanup_target(entries[k])
                ==> spec_cleanup_targets(entries).contains(entries[k].name@),
    decreases entries.len(),
{
    if entries.len() > 0 {
        let pre = entries.drop_last();
        lemma_cleanup_targets_exact(pre);
        assert forall|j: int| 0 <= j < spec_cleanup_targets(entries).len() implies some_target_has_name(
            entries,
            #[trigger] spec_cleanup_targets(entries)[j],
        ) by {
            if j < spec_cleanup_targets(pre).len() {
                let w = choose|k: int|
                    0 <= k < pre.len() && #[trigger] is_cleanup_target(pre[k]) && pre[k].name@
                        == spec_cleanup_targets(pre)[j];
                assert(pre[w] == entries[w]);
                assert(spec_cleanup_targets(entries)[j] == entries[w].name@);
                assert(0 <= w < entries.len() && is_cleanup_target(entries[w])
                    && entries[w].name@ == spec_cleanup_targets(entries)[j]);
            } else {
                let w = entries.len() - 1;
                assert(is_cleanup_target(entries.last()));
                assert(entries.last() == entries[w]);
                assert(spec_cleanup_targets(entries)[j] == entries[w].name@);
                assert(0 <= w < entries.len() && is_cleanup_target(entries[w])
                    && entries[w].name@ == spec_cleanup_targets(entries)[j]);
            }
        }
        assert forall|k: int|
            0 <= k < entries.len() && #[trigger] is_cleanup_target(entries[k]) implies
            spec_cleanup_targets(entries).contains(entries[k].name@) by {
            if k < entries.len() - 1 {
                assert(pre[k] == entries[k]);
                assert(spec_cleanup_targets(pre).contains(entries[k].name@));
                let j = choose|j: int|
                    0 <= j < spec_cleanup_targets(pre).len() && spec_cleanup_targets(pre)[j]
                        == entries[k].name@;
                assert(spec_cleanup_targets(entries)[j] == entries[k].name@);
            } else {
                assert(entries.last() == entries[k]);
                let j = spec_cleanup_targets(entries).len() - 1;
                assert(spec_cleanup_targets(entries)[j] == entries[k].name@);
            }
        }
    }
}

} // verus!
