//! The decisions behind content updates and saves: what to do with an edited
//! text given the original text, the auto-save setting and whether a file
//! path is known. The surrounding application performs the chosen action
//! (write a file, update a store, open a dialog); the decision itself is
//! verified here.

use vstd::prelude::*;

verus! {

/// What to do with newly edited text.
#[derive(Clone, Copy, Debug, PartialEq, Eq, Structural)]
pub enum UpdateAction {
    /// The edit restored the original text: drop any pending unsaved copy.
    MarkClean,
    /// Auto-save is off: keep the text as the pending unsaved copy.
    Stash,
    /// Auto-save is on and a path is known: persist the text now.
    Persist,
    /// Auto-save is on but no path is known yet: nothing can be written.
    Ignore,
}

/// What to do on an explicit save request.
#[derive(Clone, Copy, Debug, PartialEq, Eq, Structural)]
pub enum SaveAction {
    /// No path is known: the caller must first ask for one.
    NeedsPath,
    /// Nothing is pending: there is nothing to write.
    Nothing,
    /// Write the pending text to the known path.
    Persist,
}

/// The update decision as a function of its three inputs.
pub open spec fn update_decision(
    matches_original: bool,
    auto_save: bool,
    has_path: bool,
) -> UpdateAction {
    if matches_original {
        UpdateAction::MarkClean
    } else if !auto_save {
        UpdateAction::Stash
    } else if !has_path {
        UpdateAction::Ignore
    } else {
        UpdateAction::Persist
    }
}

/// The save decision as a function of its two inputs.
pub open spec fn save_decision(has_path: bool, has_unsaved: bool) -> SaveAction {
    if !has_path {
        SaveAction::NeedsPath
    } else if !has_unsaved {
        SaveAction::Nothing
    } else {
        SaveAction::Persist
    }
}

/// Whether the edited text reads exactly as the original text.
pub open spec fn same_as_original(original: Option<String>, content: String) -> bool {
    match original {
        Some(o) => o@ == content@,
        None => false,
    }
}

/// Decides what to do with edited text: an edit equal to the original marks
/// the buffer clean; otherwise the text is stashed while auto-save is off,
/// persisted when a path is known, and dropped when none is.
pub fn plan_update(
    original: &Option<String>,
    content: &String,
    auto_save: bool,
    has_path: bool,
) -> (r: UpdateAction)
    ensures
        r == update_decision(same_as_original(*original, *content), auto_save, has_path),
{
    let matches_original = match original {
        Some(o) => *o == *content,
        None => false,
    };
    if matches_original {
        UpdateAction::MarkClean
    } else if !auto_save {
        UpdateAction::Stash
    } else if !has_path {
        UpdateAction::Ignore
    } else {
        UpdateAction::Persist
    }
}

/// Decides what an explicit save request comes to.
pub fn plan_save(has_path: bool, has_unsaved: bool) -> (r: SaveAction)
    ensures
        r == save_decision(has_path, has_unsaved),
{
    if !has_path {
        SaveAction::NeedsPath
    } else if !has_unsaved {
        SaveAction::Nothing
    } else {
        SaveAction::Persist
    }
}

} // verus!
