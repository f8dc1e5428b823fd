//! Generation of projects: the plan of a new project, and what is handed to
//! the tool that fetches a remote template.

pub mod project;

pub use project::{FileOp, ProjectGenerator, Stopped};

use crate::text::{from_chars, push_str};
use vstd::prelude::*;

verus! {

/// The repository that holds the remote template.
pub const TEMPLATE_REPO: &'static str = "https://github.com/1eedaegon/boots-template.git";

/// The branch of [`TEMPLATE_REPO`] that is fetched.
pub const TEMPLATE_BRANCH: &'static str = "main";

/// The definitions that a remote template is expanded with.
pub open spec fn defines_of(name: Option<Seq<char>>) -> Seq<Seq<char>> {
    match name {
        Some(n) => seq!["project_name="@ + n],
        None => seq![],
    }
}

/// The definitions handed to the tool that expands the remote template: the
/// project's name where the caller gave one, so that the tool does not ask for
/// it, and nothing otherwise.
pub fn template_defines(name: &Option<String>) -> (r: Vec<String>)
    ensures
        r@.len() == defines_of(
            match name {
                Some(n) => Some(n@),
                None => None,
            },
        ).len(),
        forall|i: int|
            0 <= i < r@.len() ==> (#[trigger] r@[i])@ == defines_of(
                match name {
                    Some(n) => Some(n@),
                    None => None,
                },
            )[i],
{
    let mut defines: Vec<String> = Vec::new();
    match name {
        Some(n) => {
            let mut text: Vec<char> = Vec::new();
            push_str(&mut text, "project_name=");
            push_str(&mut text, n.as_str());
            defines.push(from_chars(&text));
        },
        None => {},
    }
    defines
}

} // verus!
