//! The editor bridge: the calls this layer makes into the editor, and what a
//! selection-state query yields.
use vstd::prelude::*;

verus! {

/// A heading level the editor can toggle.
#[derive(Debug, Clone, Copy, PartialEq, Eq, Structural)]
pub enum HeadingLevel {
    H1,
    H2,
    H3,
}

/// Which formatting is active at the editor's current selection.
#[derive(Debug, Clone, Copy, PartialEq, Eq, Structural)]
pub struct SelectionState {
    pub h1: bool,
    pub h2: bool,
    pub h3: bool,
    pub paragraph: bool,
    pub bold: bool,
    pub italic: bool,
    pub strike: bool,
    pub blockquote: bool,
    pub highlight: bool,
    pub align_left: bool,
    pub align_center: bool,
    pub align_right: bool,
    pub align_justify: bool,
}

/// The state in which nothing is active.
pub open spec fn empty_state() -> SelectionState {
    SelectionState {
        h1: false,
        h2: false,
        h3: false,
        paragraph: false,
        bold: false,
        italic: false,
        strike: false,
        blockquote: false,
        highlight: false,
        align_left: false,
        align_center: false,
        align_right: false,
        align_justify: false,
    }
}

impl Default for SelectionState {
    fn default() -> (r: SelectionState)
        ensures
            r == empty_state(),
    {
        SelectionState {
            h1: false,
            h2: false,
            h3: false,
            paragraph: false,
            bold: false,
            italic: false,
            strike: false,
            blockquote: false,
            highlight: false,
            align_left: false,
            align_center: false,
            align_right: false,
            align_justify: false,
        }
    }
}

/// The value the editor returned for a selection-state query did not have
/// the expected shape.
#[derive(Debug, Clone)]
pub struct StateQueryError {
    /// What the decoder said.
    pub message: String,
}

/// One call into the editor. Every call names the editor by the id of the
/// element it is bound to.
#[derive(Debug, Clone)]
pub enum EditorCall {
    /// Attach a new editor to element `id`.
    Create { id: String, initial_content: String, editable: bool },
    ToggleHeading { id: String, level: HeadingLevel },
    SetParagraph { id: String },
    ToggleBold { id: String },
    ToggleItalic { id: String },
    ToggleStrike { id: String },
    ToggleBlockquote { id: String },
    ToggleHighlight { id: String },
    SetTextAlignLeft { id: String },
    SetTextAlignCenter { id: String },
    SetTextAlignRight { id: String },
    SetTextAlignJustify { id: String },
    /// Replace the selection with an image; the arguments stand in the
    /// editor's own order.
    SetImage { id: String, url: String, alt: String, title: String },
    /// Ask for the selection state.
    GetState { id: String },
}

impl EditorCall {
    /// The id of the element the call addresses.
    pub open spec fn target(self) -> String {
        match self {
            EditorCall::Create { id, .. } => id,
            EditorCall::ToggleHeading { id, .. } => id,
            EditorCall::SetParagraph { id } => id,
            EditorCall::ToggleBold { id } => id,
            EditorCall::ToggleItalic { id } => id,
            EditorCall::ToggleStrike { id } => id,
            EditorCall::ToggleBlockquote { id } => id,
            EditorCall::ToggleHighlight { id } => id,
            EditorCall::SetTextAlignLeft { id } => id,
            EditorCall::SetTextAlignCenter { id } => id,
            EditorCall::SetTextAlignRight { id } => id,
            EditorCall::SetTextAlignJustify { id } => id,
            EditorCall::SetImage { id, .. } => id,
            EditorCall::GetState { id } => id,
        }
    }
}

/// What a selection-state query comes to: the state it returned, or the
/// empty state where the returned value could not be read.
pub open spec fn resolved_state(fetched: Result<SelectionState, StateQueryError>) -> SelectionState {
    match fetched {
        Ok(state) => state,
        Err(_) => empty_state(),
    }
}

/// Falls back to the empty state on a malformed query result, so that a bad
/// read never reaches the host as an error.
pub fn resolve_state(fetched: Result<SelectionState, StateQueryError>) -> (r: SelectionState)
    ensures
        r == resolved_state(fetched),
        fetched is Err ==> r == empty_state(),
{
    match fetched {
        Ok(state) => state,
        Err(_) => SelectionState::default(),
    }
}

} // verus!
