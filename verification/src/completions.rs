//! The completion generator: one rendered completion file per supported
//! shell dialect, named after the hierarchy's binary name.

use vstd::prelude::*;
use vstd::string::*;
use crate::dialect::{ShellDialect, all_dialects, completion_file_name, dialect_order};
use crate::hierarchy::{CommandNode, effective_bin_name, wf};
use crate::render::{
    carapace_completion_bytes, classic_shell_completion_bytes, completion_script,
    fig_completion_bytes, nushell_completion_bytes,
};

verus! {

/// One generated completion file.
pub struct CompletionFile {
    /// The dialect the file is for.
    pub shell: ShellDialect,
    /// The file's name: the binary name with the dialect's suffix (or, for
    /// some dialects, prefix).
    pub file_name: String,
    /// The rendered script.
    pub contents: Vec<u8>,
}

/// What the completion generator produces for the hierarchy `root`: one file
/// per dialect, in generation order, each named for the effective binary
/// name and holding that dialect's rendered script.
pub open spec fn completion_files_post(files: Seq<CompletionFile>, root: CommandNode) -> bool {
    &&& files.len() == dialect_order().len()
    &&& forall|i: int|
        0 <= i < files.len() ==> {
            &&& (#[trigger] files[i]).shell == dialect_order()[i]
            &&& files[i].file_name@ == completion_file_name(
                dialect_order()[i],
                effective_bin_name(root),
            )
            &&& files[i].contents@ == completion_script(
                dialect_order()[i],
                root,
                effective_bin_name(root),
            )
        }
}

/// Renders the completion script of one dialect for `root` under binary
/// name `bin`.
fn completion_bytes(d: &ShellDialect, root: &CommandNode, bin: &str) -> (r: Vec<u8>)
    requires
        wf(*root),
    ensures
        r@ == completion_script(*d, *root, bin@),
{
    match d {
        ShellDialect::Nushell => nushell_completion_bytes(root, bin),
        ShellDialect::Fig => fig_completion_bytes(root, bin),
        ShellDialect::Carapace => carapace_completion_bytes(root, bin),
        _ => classic_shell_completion_bytes(d, root, bin),
    }
}

/// Renders the completion files for the hierarchy `root`, one per supported
/// dialect, in generation order. The caller writes each file, under its
/// `file_name`, into the output directory of its choice.
pub fn completion_files(root: &CommandNode) -> (r: Vec<CompletionFile>)
    requires
        wf(*root),
    ensures
        completion_files_post(r@, *root),
{
    let bin: &String = match &root.bin_name {
        Some(b) => b,
        None => &root.name,
    };
    let dialects = all_dialects();
    let mut out: Vec<CompletionFile> = Vec::new();
    let mut i: usize = 0;
    while i < dialects.len()
        invariant
            wf(*root),
            dialects@ == dialect_order(),
            bin@ == effective_bin_name(*root),
            i <= dialects@.len(),
            out@.len() == i,
            forall|k: int|
                0 <= k < i ==> {
                    &&& (#[trigger] out@[k]).shell == dialect_order()[k]
                    &&& out@[k].file_name@ == completion_file_name(
                        dialect_order()[k],
                        effective_bin_name(*root),
                    )
                    &&& out@[k].contents@ == completion_script(
                        dialect_order()[k],
                        *root,
                        effective_bin_name(*root),
                    )
                },
        decreases dialects@.len() - i,
    {
        let d = dialects[i];
        let contents = completion_bytes(&d, root, bin.as_str());
        let file_name = d.file_name(bin.as_str());
        out.push(CompletionFile { shell: d, file_name, contents });
        i += 1;
    }
    out
}

/// Law: completion generation is deterministic. Any two results for the same
/// hierarchy agree file by file, in dialect, name and contents — so running
/// the generator twice yields byte-identical file sets, and the second run
/// overwrites the first's files with the same bytes.
pub proof fn lemma_completion_files_deterministic(
    a: Seq<CompletionFile>,
    b: Seq<CompletionFile>,
    root: CommandNode,
)
    requires
        completion_files_post(a, root),
        completion_files_post(b, root),
    ensures
        a.len() == b.len(),
        forall|i: int|
            0 <= i < a.len() ==> {
                &&& (#[trigger] a[i]).shell == b[i].shell
                &&& a[i].file_name@ == b[i].file_name@
                &&& a[i].contents@ == b[i].contents@
            },
{
}

} // verus!

