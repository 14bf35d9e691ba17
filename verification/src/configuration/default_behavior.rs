//! What the program does where the command line leaves it open.

use vstd::prelude::*;
use crate::text::{affirmative, is_affirmative};

verus! {

/// Whether output is suppressed and whether titles are looked for, by
/// default. A flag on the command line can switch either on.
#[derive(Debug, Clone, Copy, PartialEq, Eq, Structural)]
pub struct DefaultBehavior {
    pub quiet: bool,
    pub extract_title: bool,
}

impl DefaultBehavior {
    pub fn new(quiet: bool, extract_title: bool) -> (behavior: DefaultBehavior)
        ensures
            behavior == (DefaultBehavior { quiet, extract_title }),
    {
        DefaultBehavior { quiet, extract_title }
    }

    /// Reads two answers to yes-or-no questions. An answer switches its
    /// option on where, trimmed, it is the letter y in either case.
    pub fn from_args(quiet: String, extract_title: String) -> (res: std::io::Result<DefaultBehavior>)
        ensures
            res matches Ok(behavior) && behavior == (DefaultBehavior {
                quiet: affirmative(quiet@),
                extract_title: affirmative(extract_title@),
            }),
    {
        let is_quiet = is_affirmative(quiet.as_str());
        let should_extract_title = is_affirmative(extract_title.as_str());
        Ok(DefaultBehavior::new(is_quiet, should_extract_title))
    }

    /// The behaviour in effect once the command line's flags are counted in:
    /// an option is on where the default or the flag switches it on.
    pub fn with_flags(&self, quiet: bool, extract_title: bool) -> (behavior: DefaultBehavior)
        ensures
            behavior == (DefaultBehavior {
                quiet: self.quiet || quiet,
                extract_title: self.extract_title || extract_title,
            }),
    {
        DefaultBehavior {
            quiet: self.quiet || quiet,
            extract_title: self.extract_title || extract_title,
        }
    }
}

} // verus!
