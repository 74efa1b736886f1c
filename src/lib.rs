//! A rich-text editor component driven as a verified state machine.
//!
//! The component's decisions (when to attach the editor, when to hand the host
//! a link, which editor call a command becomes, what to report on a change)
//! are plain functions from state and event to next state and effects. The
//! hosting framework performs the effects.
use vstd::prelude::*;

pub mod bridge;
pub mod lifecycle;
pub mod tiptap_instance;

verus! {

/// An image to be inserted at the current selection.
#[derive(Debug, Clone, PartialEq, Eq, PartialOrd, Ord, Hash)]
pub struct ImageResource {
    /// File name, such as `image.png`.
    pub title: String,
    /// Alternative text.
    pub alt: String,
    /// Where the image is served from.
    pub url: String,
}

} // verus!
