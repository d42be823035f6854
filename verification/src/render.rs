//! The trusted boundary around clap's renderers: every function here hands a
//! command hierarchy to an outside rendering routine and returns the bytes it
//! produced. Nothing else in the crate calls an outside crate.

use vstd::prelude::*;
use crate::dialect::ShellDialect;
use crate::hierarchy::{CommandNode, wf};

verus! {

/// clap's command type; values of it exist only inside the wrappers below.
#[verifier::external_type_specification]
#[verifier::external_body]
pub struct ExCommand(clap::Command);

/// std's I/O error type; a generation error carries one as its cause.
#[verifier::external_type_specification]
#[verifier::external_body]
pub struct ExIoError(std::io::Error);

/// The completion script that the renderer for dialect `d` produces for the
/// command tree `root` under binary name `bin`.
pub uninterp spec fn completion_script(d: ShellDialect, root: CommandNode, bin: Seq<char>) -> Seq<u8>;

/// The manual page that the renderer produces for the command tree `node`,
/// retitled to `display`.
pub uninterp spec fn man_page_body(node: CommandNode, display: Seq<char>) -> Seq<u8>;

/// Builds the clap command tree that mirrors `node`, one clap subcommand per
/// subcommand node. Relies on `clap::Command::new`, `Command::bin_name` and
/// `Command::subcommand`; shared by the rendering wrappers below, which pass
/// the result straight to clap's renderers.
#[verifier::external_body]
fn clap_command_of(node: &CommandNode) -> clap::Command {
    let mut c = clap::Command::new(node.name.clone());
    if let Some(b) = &node.bin_name {
        c = c.bin_name(b.clone());
    }
    for s in node.subcommands.iter() {
        c = c.subcommand(clap_command_of(s));
    }
    c
}

/// Relies on `clap_complete::generate` with the `clap_complete::Shell`
/// generator matching `d`: it renders the completion script for the command
/// tree of `node` under binary name `bin` into the buffer, its output depends
/// on those arguments alone, and writing into a buffer does not fail.
#[verifier::external_body]
pub(crate) fn classic_shell_completion_bytes(d: &ShellDialect, node: &CommandNode, bin: &str) -> (r:
    Vec<u8>)
    requires
        wf(*node),
        *d is Bash || *d is Elvish || *d is Fish || *d is PowerShell || *d is Zsh,
    ensures
        r@ == completion_script(*d, *node, bin@),
{
    let shell = match d {
        ShellDialect::Bash => clap_complete::Shell::Bash,
        ShellDialect::Elvish => clap_complete::Shell::Elvish,
        ShellDialect::Fish => clap_complete::Shell::Fish,
        ShellDialect::PowerShell => clap_complete::Shell::PowerShell,
        _ => clap_complete::Shell::Zsh,
    };
    let mut buf: Vec<u8> = Vec::new();
    clap_complete::generate(shell, &mut clap_command_of(node), bin, &mut buf);
    buf
}

/// Relies on `clap_complete::generate` with the `clap_complete_nushell::Nushell`
/// generator, as `classic_shell_completion_bytes` does for the classic shells.
#[verifier::external_body]
pub(crate) fn nushell_completion_bytes(node: &CommandNode, bin: &str) -> (r: Vec<u8>)
    requires
        wf(*node),
    ensures
        r@ == completion_script(ShellDialect::Nushell, *node, bin@),
{
    let mut buf: Vec<u8> = Vec::new();
    clap_complete::generate(clap_complete_nushell::Nushell, &mut clap_command_of(node), bin, &mut buf);
    buf
}

/// Relies on `clap_complete::generate` with the `clap_complete_fig::Fig`
/// generator, as `classic_shell_completion_bytes` does for the classic shells.
#[verifier::external_body]
pub(crate) fn fig_completion_bytes(node: &CommandNode, bin: &str) -> (r: Vec<u8>)
    requires
        wf(*node),
    ensures
        r@ == completion_script(ShellDialect::Fig, *node, bin@),
{
    let mut buf: Vec<u8> = Vec::new();
    clap_complete::generate(clap_complete_fig::Fig, &mut clap_command_of(node), bin, &mut buf);
    buf
}

/// Relies on `clap_complete::generate` with the `carapace_spec_clap::Spec`
/// generator, as `classic_shell_completion_bytes` does for the classic shells.
#[verifier::external_body]
pub(crate) fn carapace_completion_bytes(node: &CommandNode, bin: &str) -> (r: Vec<u8>)
    requires
        wf(*node),
    ensures
        r@ == completion_script(ShellDialect::Carapace, *node, bin@),
{
    let mut buf: Vec<u8> = Vec::new();
    clap_complete::generate(carapace_spec_clap::Spec, &mut clap_command_of(node), bin, &mut buf);
    buf
}

/// Relies on `clap_mangen::Man::new`, which finalizes the command tree
/// before any rendering, and `clap_mangen::Man::render`, which renders the
/// manual page for the command tree of `node`, retitled to `display`, into
/// the buffer; the output depends on those arguments alone, and writing into
/// a buffer does not fail.
#[verifier::external_body]
pub(crate) fn rendered_man_page_bytes(node: &CommandNode, display: &str) -> (r: Vec<u8>)
    requires
        wf(*node),
    ensures
        r@ == man_page_body(*node, display@),
{
    let cmd = clap_command_of(node).name(display.to_owned());
    let mut buf: Vec<u8> = Vec::new();
    clap_mangen::Man::new(cmd).render(&mut buf).expect("writing into a buffer does not fail");
    buf
}

} // verus!
