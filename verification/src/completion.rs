//! Choosing the shell for which command-line completions are generated.
use vstd::prelude::*;

use crate::text::str_eq;

verus! {

/// Shells for which completions can be generated.
#[derive(Clone, Copy, Debug, PartialEq, Eq, Structural)]
pub enum CompletionShell {
    Bash,
    Fish,
    Zsh,
    PowerShell,
    Elvish,
}

/// What `str::to_lowercase` makes of `s`.
pub uninterp spec fn lowercase(s: Seq<char>) -> Seq<char>;

/// `str::to_lowercase`: the lower-case form of `s` (Unicode's mapping, which
/// the contract names rather than states).
#[verifier::external_body]
fn to_lowercase(s: &str) -> (r: String)
    ensures
        r@ == lowercase(s@),
{
    s.to_lowercase()
}

/// The shell that the lower-case name `name` stands for; Bash for any name
/// that is not one of the others.
pub open spec fn shell_named(name: Seq<char>) -> CompletionShell {
    if name == "fish"@ {
        CompletionShell::Fish
    } else if name == "zsh"@ {
        CompletionShell::Zsh
    } else if name == "powershell"@ {
        CompletionShell::PowerShell
    } else if name == "elvish"@ {
        CompletionShell::Elvish
    } else {
        CompletionShell::Bash
    }
}

/// The shell that the name `name` stands for, in any case.
pub fn completion_shell(name: &str) -> (s: CompletionShell)
    ensures
        s == shell_named(lowercase(name@)),
{
    let lower = to_lowercase(name);
    shell_for_lowercase(lower.as_str())
}

/// The shell that the already lower-case name `name` stands for.
pub fn shell_for_lowercase(name: &str) -> (s: CompletionShell)
    ensures
        s == shell_named(name@),
{
    if str_eq(name, "fish") {
        CompletionShell::Fish
    } else if str_eq(name, "zsh") {
        CompletionShell::Zsh
    } else if str_eq(name, "powershell") {
        CompletionShell::PowerShell
    } else if str_eq(name, "elvish") {
        CompletionShell::Elvish
    } else {
        CompletionShell::Bash
    }
}

} // verus!
