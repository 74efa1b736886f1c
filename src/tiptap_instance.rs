//! The editor component: its messages, its configuration, and the decisions it
//! makes on each lifecycle event.
use vstd::prelude::*;

use crate::bridge::{resolve_state, resolved_state, EditorCall, StateQueryError};
pub use crate::bridge::{HeadingLevel, SelectionState};
use crate::ImageResource;

verus! {

/// What can be sent to a mounted instance.
#[derive(Debug, Clone)]
pub enum Msg {
    /// Internal: the editor reports that its selection changed. Only the
    /// adapter registered with the editor sends this.
    _SelectionChanged,
    /// Internal: the editor reports new content. Only the adapter registered
    /// with the editor sends this.
    _ContentChanged { content: String },
    /// Toggles "H1" for the current selection.
    H1,
    /// Toggles "H2" for the current selection.
    H2,
    /// Toggles "H3" for the current selection.
    H3,
    /// Toggles "Paragraph" for the current selection.
    Paragraph,
    /// Toggles "Bold" for the current selection.
    Bold,
    /// Toggles "Italic" for the current selection.
    Italic,
    /// Toggles "Strike" for the current selection.
    Strike,
    /// Toggles "Blockquote" for the current selection.
    Blockquote,
    /// Toggles "Highlight" for the current selection.
    Highlight,
    /// Aligns the current selection left.
    AlignLeft,
    /// Centers the current selection.
    AlignCenter,
    /// Aligns the current selection right.
    AlignRight,
    /// Justifies the current selection.
    AlignJustify,
    /// Replaces the current selection with an image.
    SetImage(ImageResource),
}

/// A snapshot of the active formatting, handed to the host.
#[derive(Debug, Clone, Copy, PartialEq, Eq, Structural)]
pub struct Selection {
    pub state: SelectionState,
}

/// The editor's serialized content, handed to the host unchanged.
#[derive(Debug, Clone, PartialEq, Eq, PartialOrd, Ord, Hash)]
pub struct Content {
    pub content: String,
}

/// The component's configuration.
#[derive(Debug, Clone)]
pub struct Props {
    /// Id of the element the editor is bound to.
    pub id: String,
    /// CSS class of that element; `tiptap-instance` where none is given.
    pub class: Option<String>,
    /// Initial content of the editor.
    pub content: String,
    /// When set, the editor is not editable.
    pub disabled: bool,
    /// Whether the host listens for selection changes.
    pub on_selection_change: bool,
    /// Whether the host listens for content changes.
    pub on_content_change: bool,
}

/// Where an instance is in its life.
#[derive(Debug, Clone, Copy, PartialEq, Eq, Structural)]
pub enum Phase {
    /// Created, editor not yet attached, no link handed out.
    Uninitialized,
    /// Editor attached and link handed to the host.
    Attached,
    /// Torn down; the link was revoked.
    Detached,
}

/// Something the hosting framework is to do on the instance's behalf.
#[derive(Debug, Clone)]
pub enum Effect {
    /// Hand the host `None` on its link callback.
    RevokeLink,
    /// Hand the host a link to this instance.
    PublishLink,
    /// Make a call into the editor.
    Call(EditorCall),
    /// Hand the host a selection snapshot.
    EmitSelection(Selection),
    /// Hand the host new content.
    EmitContent(Content),
}

/// The answer to a message: what to do, and whether to render again.
#[derive(Debug, Clone)]
pub struct Reaction {
    pub effects: Vec<Effect>,
    pub rerender: bool,
}

/// One mounted editor component.
#[derive(Debug, Clone)]
pub struct TiptapInstance {
    pub props: Props,
    pub phase: Phase,
}

/// The class given to the editor's element where the props name none.
pub open spec fn default_class() -> Seq<char> {
    "tiptap-instance"@
}

/// The class of the editor's element.
pub open spec fn class_of(props: Props) -> Seq<char> {
    match props.class {
        Some(c) => c@,
        None => default_class(),
    }
}

/// Whether two configurations hold the same values.
pub open spec fn same_props(a: Props, b: Props) -> bool {
    &&& a.id@ == b.id@
    &&& match (a.class, b.class) {
        (Some(x), Some(y)) => x@ == y@,
        (None, None) => true,
        _ => false,
    }
    &&& a.content@ == b.content@
    &&& a.disabled == b.disabled
    &&& a.on_selection_change == b.on_selection_change
    &&& a.on_content_change == b.on_content_change
}

/// Whether a message is a formatting command from the host, rather than a
/// notification from the editor.
pub open spec fn is_command(msg: Msg) -> bool {
    !(msg is _SelectionChanged || msg is _ContentChanged)
}

/// The editor call a formatting command becomes, addressed to `id`, with the
/// command's arguments as they are.
pub open spec fn command_call(id: String, msg: Msg) -> EditorCall
    recommends
        is_command(msg),
{
    match msg {
        Msg::H1 => EditorCall::ToggleHeading { id, level: HeadingLevel::H1 },
        Msg::H2 => EditorCall::ToggleHeading { id, level: HeadingLevel::H2 },
        Msg::H3 => EditorCall::ToggleHeading { id, level: HeadingLevel::H3 },
        Msg::Paragraph => EditorCall::SetParagraph { id },
        Msg::Bold => EditorCall::ToggleBold { id },
        Msg::Italic => EditorCall::ToggleItalic { id },
        Msg::Strike => EditorCall::ToggleStrike { id },
        Msg::Blockquote => EditorCall::ToggleBlockquote { id },
        Msg::Highlight => EditorCall::ToggleHighlight { id },
        Msg::AlignLeft => EditorCall::SetTextAlignLeft { id },
        Msg::AlignCenter => EditorCall::SetTextAlignCenter { id },
        Msg::AlignRight => EditorCall::SetTextAlignRight { id },
        Msg::AlignJustify => EditorCall::SetTextAlignJustify { id },
        Msg::SetImage(r) => EditorCall::SetImage { id, url: r.url, alt: r.alt, title: r.title },
        _ => EditorCall::GetState { id },
    }
}

/// The effects of a message on an instance configured by `props`.
pub open spec fn update_effects(props: Props, msg: Msg) -> Seq<Effect> {
    match msg {
        Msg::_SelectionChanged => seq![Effect::Call(EditorCall::GetState { id: props.id })],
        Msg::_ContentChanged { content } => if props.on_content_change {
            seq![Effect::EmitContent(Content { content })]
        } else {
            seq![]
        },
        _ => seq![Effect::Call(command_call(props.id, msg))],
    }
}

/// The effects of a selection-state query's result.
pub open spec fn selection_effects(
    props: Props,
    fetched: Result<SelectionState, StateQueryError>,
) -> Seq<Effect> {
    if props.on_selection_change {
        seq![Effect::EmitSelection(Selection { state: resolved_state(fetched) })]
    } else {
        seq![]
    }
}

/// Whether a render attaches the editor: the first render of a fresh instance.
pub open spec fn attaches(phase: Phase, first_render: bool) -> bool {
    first_render && phase == Phase::Uninitialized
}

/// The effects of attaching: create the editor, then hand out the link.
pub open spec fn attach_effects(props: Props) -> Seq<Effect> {
    seq![
        Effect::Call(
            EditorCall::Create {
                id: props.id,
                initial_content: props.content,
                editable: !props.disabled,
            },
        ),
        Effect::PublishLink,
    ]
}

impl TiptapInstance {
    /// Creates an instance. The host's link is revoked first, so that it
    /// cannot reach an instance whose editor does not exist yet.
    pub fn create(props: Props) -> (r: (TiptapInstance, Vec<Effect>))
        ensures
            r.0.props == props,
            r.0.phase == Phase::Uninitialized,
            r.1@ == seq![Effect::RevokeLink],
    {
        let mut effects: Vec<Effect> = Vec::new();
        effects.push(Effect::RevokeLink);
        (TiptapInstance { props, phase: Phase::Uninitialized }, effects)
    }

    /// Called after each render. The first render of a fresh instance creates
    /// the editor on the element and only then hands the host its link.
    pub fn rendered(&mut self, first_render: bool) -> (r: Vec<Effect>)
        ensures
            final(self).props == old(self).props,
            attaches(old(self).phase, first_render) ==> final(self).phase == Phase::Attached
                && r@ == attach_effects(old(self).props),
            !attaches(old(self).phase, first_render) ==> final(self).phase == old(self).phase
                && r@ == Seq::<Effect>::empty(),
    {
        let mut effects: Vec<Effect> = Vec::new();
        if first_render && self.phase == Phase::Uninitialized {
            let call = EditorCall::Create {
                id: self.props.id.clone(),
                initial_content: self.props.content.clone(),
                editable: !self.props.disabled,
            };
            effects.push(Effect::Call(call));
            effects.push(Effect::PublishLink);
            self.phase = Phase::Attached;
            assert(effects@ =~= attach_effects(old(self).props));
        }
        effects
    }

    /// Tears the instance down: the host's link is revoked, whatever the
    /// phase.
    pub fn destroy(&mut self) -> (r: Vec<Effect>)
        ensures
            final(self).props == old(self).props,
            final(self).phase == Phase::Detached,
            r@ == seq![Effect::RevokeLink],
    {
        let mut effects: Vec<Effect> = Vec::new();
        effects.push(Effect::RevokeLink);
        self.phase = Phase::Detached;
        effects
    }

    /// Handles a message. A formatting command becomes exactly one editor call
    /// on the bound element and asks for a render. A selection change becomes
    /// exactly one selection-state query. New content is handed on unchanged
    /// where the host listens for it. Notifications ask for no render. The
    /// phase is not consulted: the host sends commands only while attached.
    pub fn update(&self, msg: Msg) -> (r: Reaction)
        ensures
            r.effects@ == update_effects(self.props, msg),
            r.rerender == is_command(msg),
    {
        let mut effects: Vec<Effect> = Vec::new();
        let id = self.props.id.clone();
        let call = match msg {
            Msg::_SelectionChanged => {
                effects.push(Effect::Call(EditorCall::GetState { id }));
                return Reaction { effects, rerender: false };
            },
            Msg::_ContentChanged { content } => {
                if self.props.on_content_change {
                    effects.push(Effect::EmitContent(Content { content }));
                }
                return Reaction { effects, rerender: false };
            },
            Msg::H1 => EditorCall::ToggleHeading { id, level: HeadingLevel::H1 },
            Msg::H2 => EditorCall::ToggleHeading { id, level: HeadingLevel::H2 },
            Msg::H3 => EditorCall::ToggleHeading { id, level: HeadingLevel::H3 },
            Msg::Paragraph => EditorCall::SetParagraph { id },
            Msg::Bold => EditorCall::ToggleBold { id },
            Msg::Italic => EditorCall::ToggleItalic { id },
            Msg::Strike => EditorCall::ToggleStrike { id },
            Msg::Blockquote => EditorCall::ToggleBlockquote { id },
            Msg::Highlight => EditorCall::ToggleHighlight { id },
            Msg::AlignLeft => EditorCall::SetTextAlignLeft { id },
            Msg::AlignCenter => EditorCall::SetTextAlignCenter { id },
            Msg::AlignRight => EditorCall::SetTextAlignRight { id },
            Msg::AlignJustify => EditorCall::SetTextAlignJustify { id },
            Msg::SetImage(resource) => EditorCall::SetImage {
                id,
                url: resource.url,
                alt: resource.alt,
                title: resource.title,
            },
        };
        effects.push(Effect::Call(call));
        Reaction { effects, rerender: true }
    }

    /// Handles the result of a selection-state query: where the host listens,
    /// it gets exactly one snapshot, the empty one if the result was
    /// malformed. No error reaches the host.
    pub fn selection_fetched(&self, fetched: Result<SelectionState, StateQueryError>) -> (r: Vec<
        Effect,
    >)
        ensures
            r@ == selection_effects(self.props, fetched),
    {
        let mut effects: Vec<Effect> = Vec::new();
        if self.props.on_selection_change {
            let state = resolve_state(fetched);
            effects.push(Effect::EmitSelection(Selection { state }));
        }
        effects
    }

    /// Takes new props from the host; asks for a render when any value
    /// differs from the current ones.
    pub fn changed(&mut self, props: Props) -> (r: bool)
        ensures
            final(self).props == props,
            final(self).phase == old(self).phase,
            r == !same_props(old(self).props, props),
    {
        let same_class = match (&self.props.class, &props.class) {
            (Some(x), Some(y)) => *x == *y,
            (None, None) => true,
            _ => false,
        };
        let same = self.props.id == props.id && same_class && self.props.content == props.content
            && self.props.disabled == props.disabled && self.props.on_selection_change
            == props.on_selection_change && self.props.on_content_change
            == props.on_content_change;
        self.props = props;
        !same
    }

    /// The CSS class of the editor's element.
    pub fn class_name(&self) -> (r: String)
        ensures
            r@ == class_of(self.props),
    {
        match &self.props.class {
            Some(c) => c.clone(),
            None => "tiptap-instance".to_owned(),
        }
    }
}

} // verus!
