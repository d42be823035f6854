//! The supported shell dialects, the order in which completion files are
//! generated, and the file name each dialect uses.

use vstd::prelude::*;
use vstd::string::*;

verus! {

/// A shell dialect for which a completion script is generated.
#[derive(Clone, Copy, Debug, PartialEq, Eq, Structural)]
pub enum ShellDialect {
    /// Bourne Again SHell.
    Bash,
    /// Elvish shell.
    Elvish,
    /// Friendly Interactive SHell.
    Fish,
    /// PowerShell.
    PowerShell,
    /// Z SHell.
    Zsh,
    /// Nushell.
    Nushell,
    /// Fig.
    Fig,
    /// The carapace spec format.
    Carapace,
}

/// The order in which completion files are generated: the five classic
/// dialects first, then Nushell, Fig and the carapace spec.
pub open spec fn dialect_order() -> Seq<ShellDialect> {
    seq![
        ShellDialect::Bash,
        ShellDialect::Elvish,
        ShellDialect::Fish,
        ShellDialect::PowerShell,
        ShellDialect::Zsh,
        ShellDialect::Nushell,
        ShellDialect::Fig,
        ShellDialect::Carapace,
    ]
}

/// The name of the completion file a dialect produces for binary name `bin`.
pub open spec fn completion_file_name(d: ShellDialect, bin: Seq<char>) -> Seq<char> {
    match d {
        ShellDialect::Bash => bin + ".bash"@,
        ShellDialect::Elvish => bin + ".elv"@,
        ShellDialect::Fish => bin + ".fish"@,
        ShellDialect::PowerShell => "_"@ + bin + ".ps1"@,
        ShellDialect::Zsh => "_"@ + bin,
        ShellDialect::Nushell => bin + ".nu"@,
        ShellDialect::Fig => bin + ".ts"@,
        ShellDialect::Carapace => bin + ".yaml"@,
    }
}

/// The label that names a dialect in a completion-file error.
pub open spec fn dialect_label(d: ShellDialect) -> Seq<char> {
    match d {
        ShellDialect::Bash => "bash"@,
        ShellDialect::Elvish => "elvish"@,
        ShellDialect::Fish => "fish"@,
        ShellDialect::PowerShell => "powershell"@,
        ShellDialect::Zsh => "zsh"@,
        ShellDialect::Nushell => "nushell"@,
        ShellDialect::Fig => "fig"@,
        ShellDialect::Carapace => "carapace"@,
    }
}

impl ShellDialect {
    /// The name of the completion file this dialect produces for binary
    /// name `bin`.
    pub fn file_name(&self, bin: &str) -> (r: String)
        ensures
            r@ == completion_file_name(*self, bin@),
    {
        match self {
            ShellDialect::Bash => bin.to_owned().concat(".bash"),
            ShellDialect::Elvish => bin.to_owned().concat(".elv"),
            ShellDialect::Fish => bin.to_owned().concat(".fish"),
            ShellDialect::PowerShell => String::from_str("_").concat(bin).concat(".ps1"),
            ShellDialect::Zsh => String::from_str("_").concat(bin),
            ShellDialect::Nushell => bin.to_owned().concat(".nu"),
            ShellDialect::Fig => bin.to_owned().concat(".ts"),
            ShellDialect::Carapace => bin.to_owned().concat(".yaml"),
        }
    }

    /// The label that names this dialect in a completion-file error.
    pub fn label(&self) -> (r: String)
        ensures
            r@ == dialect_label(*self),
    {
        match self {
            ShellDialect::Bash => String::from_str("bash"),
            ShellDialect::Elvish => String::from_str("elvish"),
            ShellDialect::Fish => String::from_str("fish"),
            ShellDialect::PowerShell => String::from_str("powershell"),
            ShellDialect::Zsh => String::from_str("zsh"),
            ShellDialect::Nushell => String::from_str("nushell"),
            ShellDialect::Fig => String::from_str("fig"),
            ShellDialect::Carapace => String::from_str("carapace"),
        }
    }
}

/// All dialects, in generation order.
pub fn all_dialects() -> (r: Vec<ShellDialect>)
    ensures
        r@ == dialect_order(),
{
    let mut r: Vec<ShellDialect> = Vec::new();
    r.push(ShellDialect::Bash);
    r.push(ShellDialect::Elvish);
    r.push(ShellDialect::Fish);
    r.push(ShellDialect::PowerShell);
    r.push(ShellDialect::Zsh);
    r.push(ShellDialect::Nushell);
    r.push(ShellDialect::Fig);
    r.push(ShellDialect::Carapace);
    proof {
        assert(r@ =~= dialect_order());
    }
    r
}

} // verus!
