//! Decisions of the desktop shell that hosts the engine: which files it
//! takes in, which windows go when the main window goes, and how long it
//! looks for the main window.

use vstd::prelude::*;
use crate::text::{lowered, same_text, starts_with, to_lowered};

verus! {

/// How often the shell looks for the main window before it gives up.
pub const MAX_MAIN_WINDOW_RETRIES: u32 = 10;

/// Milliseconds between two looks for the main window.
pub const RETRY_DELAY_MS: u64 = 200;

/// Milliseconds that child windows are given to close before the shell
/// exits.
pub const CLOSE_GRACE_MS: u64 = 100;

/// Whether a file with this extension is taken in for import. The case of
/// the letters does not matter.
pub open spec fn is_import_extension(extension: Seq<char>) -> bool {
    ||| lowered(extension) == "pptx"@
    ||| lowered(extension) == "opensong"@
    ||| lowered(extension) == "churchprogram"@
}

/// Whether a file with this extension is taken in for import.
pub fn accepts_extension(extension: &str) -> (accepted: bool)
    ensures
        accepted == is_import_extension(extension@),
{
    let lower = to_lowered(extension);
    same_text(lower.as_str(), "pptx") || same_text(lower.as_str(), "opensong") || same_text(
        lower.as_str(),
        "churchprogram",
    )
}

/// Whether the window with this label is closed along with the main
/// window: display windows and custom pages are.
pub fn closes_with_main_window(label: &str) -> (closes: bool)
    ensures
        closes == ("display-"@.is_prefix_of(label@) || "custom-page-"@.is_prefix_of(label@)),
{
    starts_with(label, "display-") || starts_with(label, "custom-page-")
}

/// Whether the webview with this label is a custom page.
pub fn is_custom_page(label: &str) -> (custom: bool)
    ensures
        custom == "custom-page-"@.is_prefix_of(label@),
{
    starts_with(label, "custom-page-")
}

/// What follows a look for the main window.
#[derive(Clone, Copy, Debug, PartialEq, Eq)]
pub enum WindowSearch {
    /// The window is there.
    Found,
    /// Sleep for this many milliseconds and look again.
    RetryAfter(u64),
    /// The window did not appear in time.
    GiveUp,
}

/// What follows look number `attempt`, counted from 1, which found the
/// window or not.
pub fn after_window_attempt(attempt: u32, found: bool) -> (next: WindowSearch)
    ensures
        next == if found {
            WindowSearch::Found
        } else if attempt < MAX_MAIN_WINDOW_RETRIES {
            WindowSearch::RetryAfter(RETRY_DELAY_MS)
        } else {
            WindowSearch::GiveUp
        },
{
    if found {
        WindowSearch::Found
    } else if attempt < MAX_MAIN_WINDOW_RETRIES {
        WindowSearch::RetryAfter(RETRY_DELAY_MS)
    } else {
        WindowSearch::GiveUp
    }
}

} // verus!
