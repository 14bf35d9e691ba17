//! What the subcommand on the command line asks for.

use vstd::prelude::*;
use vstd::string::*;
use crate::post_status::PostStatus;

verus! {

/// What the program is asked to do.
#[derive(Debug, Clone, Copy, PartialEq, Eq, Structural)]
pub enum Action {
    /// Submit a post with this status.
    Publish(PostStatus),
    /// Ask for the settings and store them.
    Configure,
    /// No subcommand was used, or none that is known.
    Nothing,
}

/// The action for a subcommand: `post` publishes, `draft` stores a draft,
/// `configure` sets the program up.
pub open spec fn action_for(name: Option<Seq<char>>) -> Action {
    match name {
        Some(name) => if name == "post"@ {
            Action::Publish(PostStatus::Published)
        } else if name == "draft"@ {
            Action::Publish(PostStatus::Draft)
        } else if name == "configure"@ {
            Action::Configure
        } else {
            Action::Nothing
        },
        None => Action::Nothing,
    }
}

/// Whether two texts hold the same characters.
fn same_text(a: &str, b: &str) -> (same: bool)
    ensures
        same == (a@ == b@),
{
    a.to_owned() == b.to_owned()
}

/// The action for the subcommand that was used, if one was.
pub fn action_for_subcommand(name: Option<&str>) -> (action: Action)
    ensures
        action == action_for(name.deep_view()),
{
    match name {
        Some(name) => if same_text(name, "post") {
            Action::Publish(PostStatus::Published)
        } else if same_text(name, "draft") {
            Action::Publish(PostStatus::Draft)
        } else if same_text(name, "configure") {
            Action::Configure
        } else {
            Action::Nothing
        },
        None => Action::Nothing,
    }
}

} // verus!
