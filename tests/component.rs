use yew_tiptap::bridge::{resolve_state, EditorCall, HeadingLevel, SelectionState, StateQueryError};
use yew_tiptap::tiptap_instance::{Content, Effect, Msg, Phase, Props, Selection, TiptapInstance};
use yew_tiptap::ImageResource;

fn props(disabled: bool, content: &str, listens: bool) -> Props {
    Props {
        id: "editor".to_owned(),
        class: None,
        content: content.to_owned(),
        disabled,
        on_selection_change: listens,
        on_content_change: listens,
    }
}

fn attached(listens: bool) -> TiptapInstance {
    let (mut inst, _) = TiptapInstance::create(props(false, "", listens));
    inst.rendered(true);
    inst
}

fn links(effects: &[Effect]) -> Vec<bool> {
    effects
        .iter()
        .filter_map(|e| match e {
            Effect::RevokeLink => Some(false),
            Effect::PublishLink => Some(true),
            _ => None,
        })
        .collect()
}

#[test]
fn mount_revokes_before_publishing() {
    let (mut inst, mut all) = TiptapInstance::create(props(true, "x", false));
    assert_eq!(inst.phase, Phase::Uninitialized);
    all.extend(inst.rendered(true));
    all.extend(inst.rendered(false));
    all.extend(inst.rendered(true));
    assert_eq!(links(&all), vec![false, true]);
    assert_eq!(inst.phase, Phase::Attached);
}

#[test]
fn mount_end_to_end() {
    let (mut inst, first) = TiptapInstance::create(props(false, "<p>start</p>", true));
    assert!(matches!(first.as_slice(), [Effect::RevokeLink]));
    let effects = inst.rendered(true);
    assert_eq!(effects.len(), 2);
    match &effects[0] {
        Effect::Call(EditorCall::Create { id, initial_content, editable }) => {
            assert_eq!(id, "editor");
            assert_eq!(initial_content, "<p>start</p>");
            assert!(*editable);
        }
        other => panic!("unexpected {:?}", other),
    }
    assert!(matches!(effects[1], Effect::PublishLink));
}

#[test]
fn disabled_editor_is_not_editable() {
    let (mut inst, _) = TiptapInstance::create(props(true, "", false));
    let effects = inst.rendered(true);
    assert!(matches!(effects[0], Effect::Call(EditorCall::Create { editable: false, .. })));
}

#[test]
fn later_renders_do_nothing() {
    let mut inst = attached(false);
    assert!(inst.rendered(true).is_empty());
    assert!(inst.rendered(false).is_empty());
}

#[test]
fn unmount_revokes_in_any_phase() {
    let (mut fresh, _) = TiptapInstance::create(props(false, "", false));
    assert!(matches!(fresh.destroy().as_slice(), [Effect::RevokeLink]));
    assert_eq!(fresh.phase, Phase::Detached);
    assert!(fresh.rendered(true).is_empty());

    let mut live = attached(false);
    assert!(matches!(live.destroy().as_slice(), [Effect::RevokeLink]));
    assert_eq!(live.phase, Phase::Detached);
}

#[test]
fn commands_call_editor_once() {
    let inst = attached(false);
    let cases = vec![
        (Msg::H1, "heading1"),
        (Msg::H2, "heading2"),
        (Msg::H3, "heading3"),
        (Msg::Paragraph, "paragraph"),
        (Msg::Bold, "bold"),
        (Msg::Italic, "italic"),
        (Msg::Strike, "strike"),
        (Msg::Blockquote, "blockquote"),
        (Msg::Highlight, "highlight"),
        (Msg::AlignLeft, "left"),
        (Msg::AlignCenter, "center"),
        (Msg::AlignRight, "right"),
        (Msg::AlignJustify, "justify"),
    ];
    for (msg, name) in cases {
        let r = inst.update(msg);
        assert!(r.rerender);
        assert_eq!(r.effects.len(), 1);
        let got = match &r.effects[0] {
            Effect::Call(EditorCall::ToggleHeading { id, level: HeadingLevel::H1 }) => (id, "heading1"),
            Effect::Call(EditorCall::ToggleHeading { id, level: HeadingLevel::H2 }) => (id, "heading2"),
            Effect::Call(EditorCall::ToggleHeading { id, level: HeadingLevel::H3 }) => (id, "heading3"),
            Effect::Call(EditorCall::SetParagraph { id }) => (id, "paragraph"),
            Effect::Call(EditorCall::ToggleBold { id }) => (id, "bold"),
            Effect::Call(EditorCall::ToggleItalic { id }) => (id, "italic"),
            Effect::Call(EditorCall::ToggleStrike { id }) => (id, "strike"),
            Effect::Call(EditorCall::ToggleBlockquote { id }) => (id, "blockquote"),
            Effect::Call(EditorCall::ToggleHighlight { id }) => (id, "highlight"),
            Effect::Call(EditorCall::SetTextAlignLeft { id }) => (id, "left"),
            Effect::Call(EditorCall::SetTextAlignCenter { id }) => (id, "center"),
            Effect::Call(EditorCall::SetTextAlignRight { id }) => (id, "right"),
            Effect::Call(EditorCall::SetTextAlignJustify { id }) => (id, "justify"),
            other => panic!("unexpected {:?}", other),
        };
        assert_eq!(got.0, "editor");
        assert_eq!(got.1, name);
    }
}

#[test]
fn set_image_passes_url_alt_title() {
    let inst = attached(false);
    let r = inst.update(Msg::SetImage(ImageResource {
        title: "image.png".to_owned(),
        alt: "An example image".to_owned(),
        url: "https://my-site.com/public/image.png".to_owned(),
    }));
    assert!(r.rerender);
    assert_eq!(r.effects.len(), 1);
    match &r.effects[0] {
        Effect::Call(EditorCall::SetImage { id, url, alt, title }) => {
            assert_eq!(id, "editor");
            assert_eq!(url, "https://my-site.com/public/image.png");
            assert_eq!(alt, "An example image");
            assert_eq!(title, "image.png");
        }
        other => panic!("unexpected {:?}", other),
    }
}

#[test]
fn selection_change_queries_once() {
    for listens in [false, true] {
        let inst = attached(listens);
        let r = inst.update(Msg::_SelectionChanged);
        assert!(!r.rerender);
        assert_eq!(r.effects.len(), 1);
        assert!(matches!(&r.effects[0], Effect::Call(EditorCall::GetState { id }) if id == "editor"));
    }
}

#[test]
fn selection_result_reported_once() {
    let state = SelectionState { bold: true, align_center: true, ..SelectionState::default() };
    let inst = attached(true);
    let effects = inst.selection_fetched(Ok(state));
    assert_eq!(effects.len(), 1);
    match &effects[0] {
        Effect::EmitSelection(s) => assert_eq!(*s, Selection { state }),
        other => panic!("unexpected {:?}", other),
    }
    assert!(attached(false).selection_fetched(Ok(state)).is_empty());
}

#[test]
fn malformed_selection_falls_back_to_empty() {
    let inst = attached(true);
    let err = StateQueryError { message: "missing field `bold`".to_owned() };
    let effects = inst.selection_fetched(Err(err));
    assert_eq!(effects.len(), 1);
    match &effects[0] {
        Effect::EmitSelection(s) => {
            assert_eq!(s.state, SelectionState::default());
            assert!(!s.state.bold && !s.state.h1 && !s.state.align_justify);
        }
        other => panic!("unexpected {:?}", other),
    }
}

#[test]
fn content_change_forwarded_unchanged() {
    let inst = attached(true);
    let r = inst.update(Msg::_ContentChanged { content: "<p>hello</p>".to_owned() });
    assert!(!r.rerender);
    assert_eq!(r.effects.len(), 1);
    match &r.effects[0] {
        Effect::EmitContent(c) => {
            assert_eq!(*c, Content { content: "<p>hello</p>".to_owned() })
        }
        other => panic!("unexpected {:?}", other),
    }
}

#[test]
fn content_change_without_listener_is_dropped() {
    let inst = attached(false);
    let r = inst.update(Msg::_ContentChanged { content: "<p>hello</p>".to_owned() });
    assert!(!r.rerender);
    assert!(r.effects.is_empty());
}

#[test]
fn class_defaults_to_tiptap_instance() {
    let inst = attached(false);
    assert_eq!(inst.class_name(), "tiptap-instance");
    let mut p = props(false, "", false);
    p.class = Some("my-editor".to_owned());
    let (custom, _) = TiptapInstance::create(p);
    assert_eq!(custom.class_name(), "my-editor");
}

#[test]
fn changed_reports_differences() {
    let mut inst = attached(false);
    assert!(!inst.changed(props(false, "", false)));
    assert!(inst.changed(props(false, "<p>new</p>", false)));
    assert_eq!(inst.props.content, "<p>new</p>");
    let mut p = props(false, "<p>new</p>", false);
    p.class = Some("x".to_owned());
    assert!(inst.changed(p));
    assert_eq!(inst.phase, Phase::Attached);
}

#[test]
fn resolve_state_keeps_ok_and_defaults_err() {
    let state = SelectionState { h2: true, italic: true, ..SelectionState::default() };
    assert_eq!(resolve_state(Ok(state)), state);
    let err = StateQueryError { message: "invalid type".to_owned() };
    assert_eq!(resolve_state(Err(err)), SelectionState::default());
    assert_ne!(state, SelectionState::default());
}
