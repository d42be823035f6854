//! The command hierarchy that both generators walk: a tree of command names,
//! an optional binary name on the root, and the ordered subcommands.

use vstd::prelude::*;
use vstd::string::*;

verus! {

/// One node of a command hierarchy: the command's name, the binary name it
/// advertises (meaningful on the root node; the top-level name is used when
/// it is absent), and its subcommands in declaration order.
pub struct CommandNode {
    /// The command's name, as it appears in generated file names.
    pub name: String,
    /// The binary name, if one was declared; completion files are named
    /// after it when present.
    pub bin_name: Option<String>,
    /// The direct subcommands, in order.
    pub subcommands: Vec<CommandNode>,
}

/// The binary name that completion files are named after: the declared
/// binary name when present, the command's own name otherwise.
pub open spec fn effective_bin_name(c: CommandNode) -> Seq<char> {
    match c.bin_name {
        Some(b) => b@,
        None => c.name@,
    }
}

/// Whether `name` holds `"help"` as a (case-sensitive) substring; such
/// subcommands get no manual page.
pub open spec fn contains_help(name: Seq<char>) -> bool {
    exists|i: int| 0 <= i && i + 4 <= name.len() && #[trigger] name.subrange(i, i + 4) == "help"@
}

/// A hierarchy the renderer accepts without complaint: at every node the
/// subcommand names are pairwise distinct, and no node has a direct
/// subcommand named exactly `"help"` (the renderer reserves that name for
/// its own help subcommand wherever subcommands exist).
pub open spec fn wf(c: CommandNode) -> bool
    decreases c,
{
    &&& forall|i: int, j: int|
        0 <= i < j < c.subcommands@.len() ==> c.subcommands@[i].name@ != c.subcommands@[j].name@
    &&& forall|i: int| 0 <= i < c.subcommands@.len() ==> c.subcommands@[i].name@ != "help"@
    &&& forall|i: int| 0 <= i < c.subcommands@.len() ==> wf(#[trigger] c.subcommands@[i])
}

/// Decides `contains_help` for a command name.
pub fn name_contains_help(name: &str) -> (r: bool)
    ensures
        r == contains_help(name@),
{
    let n = name.unicode_len();
    if n < 4 {
        return false;
    }
    let mut i: usize = 0;
    while i <= n - 4
        invariant
            4 <= n == name@.len(),
            i <= n - 3,
            forall|j: int| 0 <= j < i ==> #[trigger] name@.subrange(j, j + 4) != "help"@,
        decreases n - i,
    {
        if name.get_char(i) == 'h' && name.get_char(i + 1) == 'e' && name.get_char(i + 2) == 'l'
            && name.get_char(i + 3) == 'p' {
            proof {
                reveal_strlit("help");
                let s = name@.subrange(i as int, i + 4);
                assert(s[0] == name@[i as int]);
                assert(s[1] == name@[i as int + 1]);
                assert(s[2] == name@[i as int + 2]);
                assert(s[3] == name@[i as int + 3]);
                assert(s =~= "help"@);
            }
            return true;
        }
        proof {
            reveal_strlit("help");
            let s = name@.subrange(i as int, i + 4);
            assert(s[0] == name@[i as int]);
            assert(s[1] == name@[i as int + 1]);
            assert(s[2] == name@[i as int + 2]);
            assert(s[3] == name@[i as int + 3]);
            assert(s != "help"@);
        }
        i += 1;
    }
    false
}

/// Whether the names of `cs` are pairwise distinct.
fn names_distinct(cs: &Vec<CommandNode>) -> (r: bool)
    ensures
        r == (forall|i: int, j: int|
            0 <= i < j < cs@.len() ==> cs@[i].name@ != cs@[j].name@),
{
    let n = cs.len();
    let mut i: usize = 0;
    while i < n
        invariant
            n == cs@.len(),
            i <= n,
            forall|a: int, b: int| 0 <= a < b < cs@.len() && a < i ==> cs@[a].name@ != cs@[b].name@,
        decreases n - i,
    {
        let mut j: usize = i + 1;
        while j < n
            invariant
                n == cs@.len(),
                i < j <= n,
                forall|a: int, b: int|
                    0 <= a < b < cs@.len() && a < i ==> cs@[a].name@ != cs@[b].name@,
                forall|b: int| i < b < j ==> cs@[i as int].name@ != cs@[b].name@,
            decreases n - j,
        {
            if cs[i].name == cs[j].name {
                return false;
            }
            j += 1;
        }
        i += 1;
    }
    true
}

/// Whether no element of `cs` is named exactly `"help"`.
fn no_help_child(cs: &Vec<CommandNode>) -> (r: bool)
    ensures
        r == (forall|i: int| 0 <= i < cs@.len() ==> cs@[i].name@ != "help"@),
{
    let help: String = String::from_str("help");
    let n = cs.len();
    let mut i: usize = 0;
    while i < n
        invariant
            n == cs@.len(),
            i <= n,
            help@ == "help"@,
            forall|a: int| 0 <= a < i ==> cs@[a].name@ != "help"@,
        decreases n - i,
    {
        if cs[i].name == help {
            return false;
        }
        i += 1;
    }
    true
}

/// Whether every element of `cs` from position `i` on is well-formed.
fn subcommands_wf(cs: &Vec<CommandNode>, i: usize) -> (r: bool)
    requires
        i <= cs@.len(),
    ensures
        r == (forall|j: int| i <= j < cs@.len() ==> wf(#[trigger] cs@[j])),
    decreases cs@, cs@.len() - i,
{
    if i == cs.len() {
        true
    } else if !is_wf(&cs[i]) {
        false
    } else {
        subcommands_wf(cs, i + 1)
    }
}

/// Decides `wf` for a hierarchy.
pub fn is_wf(c: &CommandNode) -> (r: bool)
    ensures
        r == wf(*c),
    decreases *c, 1nat,
{
    if !names_distinct(&c.subcommands) {
        return false;
    }
    if !no_help_child(&c.subcommands) {
        return false;
    }
    subcommands_wf(&c.subcommands, 0)
}

} // verus!
