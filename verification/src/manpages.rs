//! The manual-page generator: a depth-first, pre-order walk of the command
//! hierarchy that renders one page per node, naming nested nodes with the
//! hyphen-joined chain of ancestor names and skipping, with its whole
//! subtree, every subcommand whose name contains "help".

use vstd::prelude::*;
use vstd::string::*;
use crate::hierarchy::{CommandNode, contains_help, name_contains_help, wf};
use crate::render::{man_page_body, rendered_man_page_bytes};

verus! {

/// One generated manual page.
pub struct ManPageFile {
    /// The file's name: the node's display name with a `.1` suffix.
    pub file_name: String,
    /// The rendered page.
    pub contents: Vec<u8>,
}

/// The display name of a node reached under `prefix`: the prefix and the
/// node's own name joined by a hyphen, or the bare name at the root.
pub open spec fn display_name_of(prefix: Seq<char>, name: Seq<char>) -> Seq<char> {
    if prefix.len() == 0 {
        name
    } else {
        prefix + "-"@ + name
    }
}

/// The pages generated for the subtree rooted at `c`, reached under
/// `prefix`, in generation order: the node's own page first, then the pages
/// of each subcommand's subtree in order. Each entry is a file name and the
/// page's contents; the node's display name becomes the prefix of its
/// subcommands.
pub open spec fn man_page_plan(c: CommandNode, prefix: Seq<char>) -> Seq<(Seq<char>, Seq<u8>)>
    decreases c,
{
    let display = display_name_of(prefix, c.name@);
    seq![(display + ".1"@, man_page_body(c, display))] + man_page_plan_children(
        c.subcommands@,
        display,
    )
}

/// The concatenated plans of the subtrees of `cs` under `prefix`, where a
/// subtree whose root's name contains "help" is skipped whole.
pub open spec fn man_page_plan_children(cs: Seq<CommandNode>, prefix: Seq<char>) -> Seq<
    (Seq<char>, Seq<u8>),
>
    decreases cs,
{
    if cs.len() == 0 {
        Seq::empty()
    } else {
        (if contains_help(cs[0].name@) {
            Seq::empty()
        } else {
            man_page_plan(cs[0], prefix)
        }) + man_page_plan_children(cs.drop_first(), prefix)
    }
}

/// Whether the files realise the plan: same number, and file by file the
/// planned name and contents.
pub open spec fn files_match_plan(
    files: Seq<ManPageFile>,
    plan: Seq<(Seq<char>, Seq<u8>)>,
) -> bool {
    &&& files.len() == plan.len()
    &&& forall|i: int|
        0 <= i < files.len() ==> (#[trigger] files[i]).file_name@ == plan[i].0
            && files[i].contents@ == plan[i].1
}

proof fn lemma_match_concat(
    f1: Seq<ManPageFile>,
    f2: Seq<ManPageFile>,
    p1: Seq<(Seq<char>, Seq<u8>)>,
    p2: Seq<(Seq<char>, Seq<u8>)>,
)
    requires
        files_match_plan(f1, p1),
        files_match_plan(f2, p2),
    ensures
        files_match_plan(f1 + f2, p1 + p2),
{
    assert forall|i: int| 0 <= i < f1.len() + f2.len() implies ((#[trigger] (f1 + f2)[i]).file_name@
        == (p1 + p2)[i].0 && (f1 + f2)[i].contents@ == (p1 + p2)[i].1) by {
        if i < f1.len() {
            assert(f1[i].file_name@ == p1[i].0 && f1[i].contents@ == p1[i].1);
        } else {
            assert(f2[i - f1.len()].file_name@ == p2[i - p1.len()].0 && f2[i - f1.len()].contents@
                == p2[i - p1.len()].1);
        }
    }
}

/// Renders the pages of the subtrees of `node`'s subcommands from position
/// `i` on, under prefix `display`, appending to `out`.
fn collect_children(node: &CommandNode, i: usize, display: &str, out: &mut Vec<ManPageFile>)
    requires
        wf(*node),
        i <= node.subcommands@.len(),
    ensures
        final(out)@.len() >= old(out)@.len(),
        forall|k: int| 0 <= k < old(out)@.len() ==> final(out)@[k] == old(out)@[k],
        files_match_plan(
            final(out)@.skip(old(out)@.len() as int),
            man_page_plan_children(node.subcommands@.skip(i as int), display@),
        ),
    decreases *node, node.subcommands@.len() - i,
{
    if i == node.subcommands.len() {
        proof {
            assert(node.subcommands@.skip(i as int) =~= Seq::<CommandNode>::empty());
            assert(out@.skip(out@.len() as int) =~= Seq::<ManPageFile>::empty());
        }
        return;
    }
    let ghost n0 = out@.len() as int;
    let sub = &node.subcommands[i];
    proof {
        assert(wf(node.subcommands@[i as int]));
    }
    if !name_contains_help(sub.name.as_str()) {
        collect_man_pages(sub, display, out);
    }
    let ghost mid = out@;
    collect_children(node, i + 1, display, out);
    proof {
        let cs = node.subcommands@;
        let head_plan = if contains_help(cs[i as int].name@) {
            Seq::<(Seq<char>, Seq<u8>)>::empty()
        } else {
            man_page_plan(cs[i as int], display@)
        };
        let head_files = mid.skip(n0);
        if contains_help(cs[i as int].name@) {
            assert(head_files =~= Seq::<ManPageFile>::empty());
        }
        assert(files_match_plan(head_files, head_plan));
        let tail_plan = man_page_plan_children(cs.skip(i as int + 1), display@);
        let tail_files = out@.skip(mid.len() as int);
        lemma_match_concat(head_files, tail_files, head_plan, tail_plan);
        assert(out@.skip(n0) =~= head_files + tail_files);
        assert(cs.skip(i as int)[0] == cs[i as int]);
        assert(cs.skip(i as int).drop_first() =~= cs.skip(i as int + 1));
        assert(man_page_plan_children(cs.skip(i as int), display@) == head_plan + tail_plan);
    }
}

/// Renders the pages of the subtree rooted at `node`, reached under
/// `prefix`, appending to `out`: the node's own page first, then its
/// subcommands' subtrees in order.
fn collect_man_pages(node: &CommandNode, prefix: &str, out: &mut Vec<ManPageFile>)
    requires
        wf(*node),
    ensures
        final(out)@.len() >= old(out)@.len(),
        forall|k: int| 0 <= k < old(out)@.len() ==> final(out)@[k] == old(out)@[k],
        files_match_plan(
            final(out)@.skip(old(out)@.len() as int),
            man_page_plan(*node, prefix@),
        ),
    decreases *node, node.subcommands@.len() + 1,
{
    let ghost n0 = out@.len() as int;
    let display: String = if prefix.is_empty() {
        node.name.clone()
    } else {
        prefix.to_owned().concat("-").concat(node.name.as_str())
    };
    proof {
        assert(display@ == display_name_of(prefix@, node.name@));
    }
    let mut file_name: String = display.clone();
    file_name.append(".1");
    let contents = rendered_man_page_bytes(node, display.as_str());
    out.push(ManPageFile { file_name, contents });
    let ghost mid = out@;
    collect_children(node, 0, display.as_str(), out);
    proof {
        let plan = man_page_plan(*node, prefix@);
        let head_plan = seq![
            (display@ + ".1"@, man_page_body(*node, display@)),
        ];
        let head_files = mid.skip(n0);
        assert(head_files =~= seq![mid[mid.len() - 1]]);
        assert(files_match_plan(head_files, head_plan));
        let tail_plan = man_page_plan_children(node.subcommands@, display@);
        let tail_files = out@.skip(mid.len() as int);
        assert(node.subcommands@.skip(0) =~= node.subcommands@);
        lemma_match_concat(head_files, tail_files, head_plan, tail_plan);
        assert(out@.skip(n0) =~= head_files + tail_files);
        assert(plan == head_plan + tail_plan);
    }
}

/// Renders the manual pages for the hierarchy `root`: one page per node of
/// the tree, in depth-first pre-order, skipping every subcommand (with its
/// subtree) whose name contains "help". The caller writes each file, under
/// its `file_name`, into the output directory of its choice.
pub fn man_page_files(root: &CommandNode) -> (r: Vec<ManPageFile>)
    requires
        wf(*root),
    ensures
        files_match_plan(r@, man_page_plan(*root, Seq::<char>::empty())),
        r@.len() >= 1,
{
    let mut out: Vec<ManPageFile> = Vec::new();
    collect_man_pages(root, "", &mut out);
    proof {
        reveal_strlit("");
        assert(""@ =~= Seq::<char>::empty());
        assert(out@.skip(0) =~= out@);
    }
    out
}

/// Law: manual-page generation is deterministic. Any two results for the
/// same hierarchy agree page by page, in name and contents — so running the
/// generator twice yields byte-identical file sets, and the second run
/// overwrites the first's files with the same bytes.
pub proof fn lemma_man_page_files_deterministic(
    a: Seq<ManPageFile>,
    b: Seq<ManPageFile>,
    root: CommandNode,
)
    requires
        files_match_plan(a, man_page_plan(root, Seq::<char>::empty())),
        files_match_plan(b, man_page_plan(root, Seq::<char>::empty())),
    ensures
        a.len() == b.len(),
        forall|i: int|
            0 <= i < a.len() ==> (#[trigger] a[i]).file_name@ == b[i].file_name@
                && a[i].contents@ == b[i].contents@,
{
}

} // verus!

