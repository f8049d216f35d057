//! How a new project is set up: the version control systems on offer, and
//! the arguments that are handed to `cargo`.

use crate::zuu::names;
use vstd::prelude::*;

verus! {

/// The version control system that is taken where the user names none.
pub const DEFAULT_VCS: &'static str = "git";

/// The version control systems on offer, in the order in which they are
/// shown.
pub open spec fn vcs_names() -> Seq<Seq<char>> {
    seq!["git"@, "hg"@, "pijul"@, "fossil"@, "none"@]
}

/// The arguments that make `cargo` set up a project under `vcs`: a program
/// if `program` holds, else a library.
pub open spec fn init_argument_names(vcs: Seq<char>, program: bool) -> Seq<Seq<char>> {
    seq![
        "init"@,
        if program {
            "--bin"@
        } else {
            "--lib"@
        },
        "--vcs"@,
        vcs,
    ]
}

/// The arguments that make `cargo deny` write a fresh configuration.
pub open spec fn deny_argument_names() -> Seq<Seq<char>> {
    seq!["deny"@, "init"@]
}

/// The version control systems on offer.
pub fn vcs_options() -> (options: Vec<&'static str>)
    ensures
        options@.map_values(|s: &'static str| s@) == vcs_names(),
        options@[0] == DEFAULT_VCS,
{
    let mut options: Vec<&'static str> = Vec::new();
    options.push(DEFAULT_VCS);
    options.push("hg");
    options.push("pijul");
    options.push("fossil");
    options.push("none");
    assert(options@.map_values(|s: &'static str| s@) =~= vcs_names());
    options
}

/// The arguments that make `cargo` set up the project that the user asked
/// for. Where no version control system was named, the default is taken;
/// where the kind of project was not named, a library is made.
pub fn init_arguments(vcs: Option<&str>, program: Option<bool>) -> (arguments: Vec<String>)
    ensures
        names(arguments@) == init_argument_names(
            match vcs {
                Some(name) => name@,
                None => DEFAULT_VCS@,
            },
            program == Some(true),
        ),
{
    let vcs = match vcs {
        Some(name) => name,
        None => DEFAULT_VCS,
    };
    let program = match program {
        Some(answer) => answer,
        None => false,
    };
    let mut arguments: Vec<String> = Vec::new();
    arguments.push("init".to_owned());
    if program {
        arguments.push("--bin".to_owned());
    } else {
        arguments.push("--lib".to_owned());
    }
    arguments.push("--vcs".to_owned());
    arguments.push(vcs.to_owned());
    assert(names(arguments@) =~= init_argument_names(vcs@, program));
    arguments
}

/// The arguments that make `cargo deny` write a fresh configuration.
pub fn deny_arguments() -> (arguments: Vec<String>)
    ensures
        names(arguments@) == deny_argument_names(),
{
    let mut arguments: Vec<String> = Vec::new();
    arguments.push("deny".to_owned());
    arguments.push("init".to_owned());
    assert(names(arguments@) =~= deny_argument_names());
    arguments
}

} // verus!
