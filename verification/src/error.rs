//! What can keep the launcher from starting the JVM.

use crate::journal::NAME;
use crate::settings::INSTALL_DIR;
use crate::text::with_prefix;
use vstd::prelude::*;

verus! {

/// A failure that ends the launch.
#[derive(Debug)]
pub enum LaunchError {
    /// The addin's installation was looked for in `path`, which is no directory.
    AddinNotFound { path: String },
    /// `pattern` could not be searched for JARs, for `reason`.
    BadPattern { pattern: String, reason: String },
}

/// What is reported when the addin's installation is not found in `path`. The
/// text names the setting that says where the installation is.
pub open spec fn addin_not_found_message(path: Seq<char>) -> Seq<char> {
    "Unable to locate the "@ + NAME@ + " installation in "@ + path + ". Ensure that the "@
        + INSTALL_DIR@ + " notes.ini property points to the correct location"@
}

/// What is reported when `pattern` cannot be searched, for `reason`.
pub open spec fn bad_pattern_message(pattern: Seq<char>, reason: Seq<char>) -> Seq<char> {
    "Unable to search "@ + pattern + ": "@ + reason
}

impl LaunchError {
    /// The failure in words.
    pub open spec fn message_text(self) -> Seq<char> {
        match self {
            LaunchError::AddinNotFound { path } => addin_not_found_message(path@),
            LaunchError::BadPattern { pattern, reason } => bad_pattern_message(pattern@, reason@),
        }
    }

    /// The failure in words.
    pub fn message(&self) -> (r: String)
        ensures
            r@ == self.message_text(),
    {
        match self {
            LaunchError::AddinNotFound { path } => {
                let mut msg = with_prefix("Unable to locate the ", NAME);
                msg.append(" installation in ");
                msg.append(path.as_str());
                msg.append(". Ensure that the ");
                msg.append(INSTALL_DIR);
                msg.append(" notes.ini property points to the correct location");
                msg
            },
            LaunchError::BadPattern { pattern, reason } => {
                let mut msg = with_prefix("Unable to search ", pattern.as_str());
                msg.append(": ");
                msg.append(reason.as_str());
                msg
            },
        }
    }
}

} // verus!
