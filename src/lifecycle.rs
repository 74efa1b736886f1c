//! The component's whole life as a sequence of events, and the laws that hold
//! of every such sequence.
use vstd::prelude::*;

use crate::bridge::{empty_state, resolved_state, EditorCall, SelectionState, StateQueryError};
use crate::tiptap_instance::{
    attach_effects, attaches, command_call, is_command, selection_effects, update_effects, Content,
    Effect, Msg, Phase, Props, Selection, TiptapInstance,
};

verus! {

/// One thing that can happen to a mounted instance.
pub enum Event {
    /// A render finished; the flag tells whether it was the first.
    Rendered(bool),
    /// The host handed new props.
    Changed(Props),
    /// A message arrived.
    Message(Msg),
    /// A selection-state query returned.
    SelectionFetched(Result<SelectionState, StateQueryError>),
    /// The instance is torn down.
    Destroyed,
}

/// The state after an event, and the effects it asks for, as the instance's
/// methods give them.
pub open spec fn step(s: TiptapInstance, e: Event) -> (TiptapInstance, Seq<Effect>) {
    match e {
        Event::Rendered(first) => if attaches(s.phase, first) {
            (TiptapInstance { props: s.props, phase: Phase::Attached }, attach_effects(s.props))
        } else {
            (s, Seq::empty())
        },
        Event::Changed(p) => (TiptapInstance { props: p, phase: s.phase }, Seq::empty()),
        Event::Message(m) => (s, update_effects(s.props, m)),
        Event::SelectionFetched(f) => (s, selection_effects(s.props, f)),
        Event::Destroyed => (
            TiptapInstance { props: s.props, phase: Phase::Detached },
            seq![Effect::RevokeLink],
        ),
    }
}

/// The effects of a sequence of events, from state `s`.
pub open spec fn run(s: TiptapInstance, events: Seq<Event>) -> Seq<Effect>
    decreases events.len(),
{
    if events.len() == 0 {
        Seq::empty()
    } else {
        let (t, e) = step(s, events[0]);
        e + run(t, events.drop_first())
    }
}

/// The effects of mounting an instance with `props` and then going through
/// `events`.
pub open spec fn mounted(props: Props, events: Seq<Event>) -> Seq<Effect> {
    seq![Effect::RevokeLink] + run(TiptapInstance { props, phase: Phase::Uninitialized }, events)
}

/// How many times the link is handed to the host.
pub open spec fn published(effects: Seq<Effect>) -> nat
    decreases effects.len(),
{
    if effects.len() == 0 {
        0
    } else {
        (if effects[0] is PublishLink {
            1nat
        } else {
            0nat
        }) + published(effects.drop_first())
    }
}

/// How many times an editor is created.
pub open spec fn created(effects: Seq<Effect>) -> nat
    decreases effects.len(),
{
    if effects.len() == 0 {
        0
    } else {
        (if effects[0] matches Effect::Call(EditorCall::Create { .. }) {
            1nat
        } else {
            0nat
        }) + created(effects.drop_first())
    }
}

proof fn lemma_counts_concat(a: Seq<Effect>, b: Seq<Effect>)
    ensures
        published(a + b) == published(a) + published(b),
        created(a + b) == created(a) + created(b),
    decreases a.len(),
{
    if a.len() > 0 {
        assert((a + b).drop_first() =~= a.drop_first() + b);
        lemma_counts_concat(a.drop_first(), b);
    } else {
        assert(a + b =~= b);
    }
}

proof fn lemma_counts_short(e: Seq<Effect>)
    requires
        e.len() <= 2,
    ensures
        published(e) == (if e.len() > 0 && e[0] is PublishLink { 1nat } else { 0nat }) + (if e.len()
            > 1 && e[1] is PublishLink {
            1nat
        } else {
            0nat
        }),
        created(e) == (if e.len() > 0 && e[0] matches Effect::Call(EditorCall::Create { .. }) {
            1nat
        } else {
            0nat
        }) + (if e.len() > 1 && e[1] matches Effect::Call(EditorCall::Create { .. }) {
            1nat
        } else {
            0nat
        }),
{
    reveal_with_fuel(published, 3);
    reveal_with_fuel(created, 3);
    if e.len() > 1 {
        assert(e.drop_first()[0] == e[1]);
        assert(e.drop_first().drop_first().len() == 0);
    }
}

proof fn lemma_step_links(s: TiptapInstance, e: Event)
    ensures
        published(step(s, e).1) == created(step(s, e).1),
        published(step(s, e).1) <= (if s.phase == Phase::Uninitialized { 1nat } else { 0nat }),
        published(step(s, e).1) == 1 ==> step(s, e).0.phase == Phase::Attached,
        s.phase != Phase::Uninitialized ==> step(s, e).0.phase != Phase::Uninitialized,
{
    lemma_counts_short(step(s, e).1);
}

/// From any state, the link is handed out exactly as often as an editor is
/// created, and at most once, and only from a fresh instance.
pub proof fn lemma_run_links(s: TiptapInstance, events: Seq<Event>)
    ensures
        published(run(s, events)) == created(run(s, events)),
        published(run(s, events)) <= (if s.phase == Phase::Uninitialized { 1nat } else { 0nat }),
    decreases events.len(),
{
    if events.len() > 0 {
        let (t, e) = step(s, events[0]);
        lemma_step_links(s, events[0]);
        lemma_run_links(t, events.drop_first());
        lemma_counts_concat(e, run(t, events.drop_first()));
    }
}

/// Mounting hands the host `None` before anything else, so before any link;
/// over the instance's whole life the link is handed out at most once, and
/// exactly once for each editor that is attached.
pub proof fn lemma_mount_links(props: Props, events: Seq<Event>)
    ensures
        mounted(props, events)[0] is RevokeLink,
        published(mounted(props, events)) <= 1,
        published(mounted(props, events)) == created(mounted(props, events)),
{
    let fresh = TiptapInstance { props, phase: Phase::Uninitialized };
    lemma_run_links(fresh, events);
    lemma_counts_concat(seq![Effect::RevokeLink], run(fresh, events));
    lemma_counts_short(seq![Effect::RevokeLink]);
}

/// The first render of a fresh instance creates the editor with the props'
/// content, editable unless disabled, and then hands out the link once.
pub proof fn lemma_first_render_attaches(props: Props)
    ensures
        ({
            let (t, e) = step(TiptapInstance { props, phase: Phase::Uninitialized }, Event::Rendered(true));
            &&& t.phase == Phase::Attached
            &&& e == seq![
                Effect::Call(
                    EditorCall::Create {
                        id: props.id,
                        initial_content: props.content,
                        editable: !props.disabled,
                    },
                ),
                Effect::PublishLink,
            ]
            &&& published(e) == 1
        }),
{
    lemma_counts_short(attach_effects(props));
}

/// Unmounting revokes the link whatever the state, and nothing that happens
/// afterwards hands it out again.
pub proof fn lemma_unmount_revokes(s: TiptapInstance, later: Seq<Event>)
    ensures
        step(s, Event::Destroyed).1 == seq![Effect::RevokeLink],
        step(s, Event::Destroyed).0.phase == Phase::Detached,
        published(run(step(s, Event::Destroyed).0, later)) == 0,
{
    lemma_run_links(step(s, Event::Destroyed).0, later);
}

/// A formatting command becomes exactly one call into the editor, addressed to
/// the bound element, with the command's arguments unchanged.
pub proof fn lemma_command_calls_once(props: Props, msg: Msg)
    requires
        is_command(msg),
    ensures
        update_effects(props, msg).len() == 1,
        update_effects(props, msg)[0] == Effect::Call(command_call(props.id, msg)),
        command_call(props.id, msg).target() == props.id,
        msg matches Msg::SetImage(r) ==> command_call(props.id, msg) == (EditorCall::SetImage {
            id: props.id,
            url: r.url,
            alt: r.alt,
            title: r.title,
        }),
{
}

/// A selection change queries the selection state exactly once; the query's
/// result is handed to a listening host exactly once, and to no other.
pub proof fn lemma_selection_reported_once(
    props: Props,
    fetched: Result<SelectionState, StateQueryError>,
)
    ensures
        update_effects(props, Msg::_SelectionChanged) == seq![
            Effect::Call(EditorCall::GetState { id: props.id }),
        ],
        props.on_selection_change ==> selection_effects(props, fetched) == seq![
            Effect::EmitSelection(Selection { state: resolved_state(fetched) }),
        ],
        !props.on_selection_change ==> selection_effects(props, fetched).len() == 0,
{
}

/// A malformed selection-state result reaches the host as the empty state,
/// never as an error.
pub proof fn lemma_malformed_selection_is_empty(props: Props, err: StateQueryError)
    ensures
        forall|i: int|
            0 <= i < selection_effects(props, Err(err)).len() ==> selection_effects(
                props,
                Err(err),
            )[i] == Effect::EmitSelection(Selection { state: empty_state() }),
{
}

/// New content is handed to a listening host once, exactly as received.
pub proof fn lemma_content_forwarded(props: Props, content: String)
    ensures
        props.on_content_change ==> update_effects(props, Msg::_ContentChanged { content })
            == seq![Effect::EmitContent(Content { content })],
        !props.on_content_change ==> update_effects(props, Msg::_ContentChanged { content }).len()
            == 0,
{
}

} // verus!
