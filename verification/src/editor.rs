//! The input dispatcher: routes each terminal event to the handler of the
//! current mode, owns the buffer, themes, keybinds, and guide line, and
//! coordinates the search provider.
//!
//! The whole dispatch is specified as a transition function over
//! `EditorView`, the mathematical state of the dispatcher. What the search
//! provider answers is not constrained; the transitions take its answers as
//! parameters, so each contract pins the next state for every possible
//! answer.

use crate::buffer;
use crate::buffer::{BufferState, EditMode, TextView};
use crate::guide;
use crate::guide::Guide;
use crate::keys::{Event, KeyCode, KeyEventKind, KeyModifiers, Keystroke};
use crate::search::{LookupError, SearchProvider, SearchReply};
use crate::style::Style;
use vstd::prelude::*;

verus! {

/// The dispatcher's mode: ordinary editing, or walking the suggestion
/// list. Edit is the initial mode and the mode `defocus` forces.
#[derive(Clone, Copy, Debug, PartialEq, Eq, Structural)]
pub enum Mode {
    Edit,
    SearchNavigation,
}

/// One style bundle: the prompt prefix and the three character styles that
/// a focus change copies onto the buffer's display attributes.
pub struct EditorTheme {
    /// Prefix for the prompt string.
    pub prefix: String,
    /// Style applied to the prompt string.
    pub prefix_style: Style,
    /// Style applied to the currently selected character.
    pub active_char_style: Style,
    /// Style applied to characters that are not currently selected.
    pub inactive_char_style: Style,
}

/// The keybinding table: one keystroke per logical action, fixed at
/// startup. Slots are not required to be distinct; an ambiguous table is a
/// configuration matter, resolved by the dispatch priority order.
#[derive(Clone, Copy, Debug, PartialEq, Eq, Structural)]
pub struct Keybinds {
    pub move_to_tail: Keystroke,
    pub backward: Keystroke,
    pub forward: Keystroke,
    pub completion: Keystroke,
    pub move_to_head: Keystroke,
    pub move_to_previous_nearest: Keystroke,
    pub move_to_next_nearest: Keystroke,
    pub erase: Keystroke,
    pub erase_all: Keystroke,
    pub erase_to_previous_nearest: Keystroke,
    pub erase_to_next_nearest: Keystroke,
    pub search_up: Keystroke,
}

/// The logical action an Edit-mode keystroke resolves to, in the fixed
/// priority order of the dispatch.
#[derive(Clone, Copy, Debug, PartialEq, Eq, Structural)]
pub enum EditAction {
    Completion,
    Backward,
    Forward,
    MoveToHead,
    MoveToTail,
    MoveToPreviousNearest,
    MoveToNextNearest,
    Erase,
    EraseAll,
    EraseToPreviousNearest,
    EraseToNextNearest,
    InputChar(char),
    Noop,
}

/// The mathematical value of a theme.
#[verifier::ext_equal]
pub struct ThemeView {
    pub prefix: Seq<char>,
    pub prefix_style: Style,
    pub active_char_style: Style,
    pub inactive_char_style: Style,
}

/// The mathematical state of the dispatcher: everything it owns except
/// the search provider.
#[verifier::ext_equal]
pub struct EditorView {
    pub mode: Mode,
    pub text: Seq<char>,
    pub cursor: int,
    pub edit_mode: EditMode,
    pub word_break_chars: Seq<char>,
    pub prefix: Seq<char>,
    pub prefix_style: Style,
    pub active_char_style: Style,
    pub inactive_char_style: Style,
    pub guide_text: Seq<char>,
    pub guide_style: Style,
    pub focus_theme: ThemeView,
    pub defocus_theme: ThemeView,
    pub keybinds: Keybinds,
}

/// What the provider may have answered during one dispatch: the reply of a
/// prefix search, and the candidate a navigation step landed on. Each
/// transition reads only the part that its branch asked for.
pub struct ProviderData {
    pub reply: Result<SearchReply, LookupError>,
    pub item: Seq<char>,
}

/// The value of a theme.
pub open spec fn theme_view(t: EditorTheme) -> ThemeView {
    ThemeView {
        prefix: t.prefix@,
        prefix_style: t.prefix_style,
        active_char_style: t.active_char_style,
        inactive_char_style: t.inactive_char_style,
    }
}

/// The action a keystroke resolves to in Edit mode: completion first, then
/// cursor motion, then erasure, then literal input; the first match wins.
/// A plain printable character is accepted with no modifier or with shift
/// alone; other modifier combinations are left to the binding table and
/// otherwise ignored.
pub open spec fn resolve_edit_action(kb: Keybinds, ev: Event) -> EditAction {
    if ev == Event::Key(kb.completion) {
        EditAction::Completion
    } else if ev == Event::Key(kb.backward) {
        EditAction::Backward
    } else if ev == Event::Key(kb.forward) {
        EditAction::Forward
    } else if ev == Event::Key(kb.move_to_head) {
        EditAction::MoveToHead
    } else if ev == Event::Key(kb.move_to_tail) {
        EditAction::MoveToTail
    } else if ev == Event::Key(kb.move_to_previous_nearest) {
        EditAction::MoveToPreviousNearest
    } else if ev == Event::Key(kb.move_to_next_nearest) {
        EditAction::MoveToNextNearest
    } else if ev == Event::Key(kb.erase) {
        EditAction::Erase
    } else if ev == Event::Key(kb.erase_all) {
        EditAction::EraseAll
    } else if ev == Event::Key(kb.erase_to_previous_nearest) {
        EditAction::EraseToPreviousNearest
    } else if ev == Event::Key(kb.erase_to_next_nearest) {
        EditAction::EraseToNextNearest
    } else {
        match ev {
            Event::Key(k) => match k.code {
                KeyCode::Char(c) => {
                    if k.kind is Press && !k.aux_state && (k.modifiers.spec_is_none()
                        || k.modifiers.spec_is_shift_only()) {
                        EditAction::InputChar(c)
                    } else {
                        EditAction::Noop
                    }
                },
                _ => EditAction::Noop,
            },
            Event::NonKey => EditAction::Noop,
        }
    }
}

/// Empties the guide message, as every Edit-mode dispatch does on entry.
pub open spec fn clear_guide(v: EditorView) -> EditorView {
    EditorView { guide_text: Seq::empty(), ..v }
}

/// The buffer part of the state.
pub open spec fn buffer_of(v: EditorView) -> TextView {
    TextView { text: v.text, cursor: v.cursor }
}

/// The state with its buffer part replaced.
pub open spec fn with_buffer(v: EditorView, t: TextView) -> EditorView {
    EditorView { text: t.text, cursor: t.cursor, ..v }
}

/// How a completion reply lands: a failure or an empty answer becomes a
/// guide message and nothing else changes; a head candidate replaces the
/// buffer, reports how much is loaded, and enters Search-Navigation. The
/// prefix the no-candidate message quotes is the text up to the cursor —
/// the same prefix the search was started over.
pub open spec fn completion_step(v: EditorView, result: Result<SearchReply, LookupError>) -> EditorView {
    match result {
        Result::Err(e) => EditorView {
            guide_text: guide::lookup_failure_message_spec(e.kind@, e.message@),
            guide_style: Style::spec_warning(),
            ..v
        },
        Result::Ok(reply) => match reply.head_candidate {
            Option::None => EditorView {
                guide_text: guide::no_suggestion_message_spec(v.text.take(v.cursor)),
                guide_style: Style::spec_warning(),
                ..v
            },
            Option::Some(head) => EditorView {
                guide_text: if reply.fully_loaded {
                    guide::loaded_all_message_spec(reply.loaded_count as int)
                } else {
                    guide::loaded_partially_message_spec(reply.loaded_count as int)
                },
                guide_style: Style::spec_success(),
                text: head@,
                cursor: head@.len() as int,
                mode: Mode::SearchNavigation,
                ..v
            },
        },
    }
}

/// One Edit-mode dispatch: clear the guide, resolve the keystroke, and
/// either run the completion with the provider's `reply`, apply the bound
/// buffer operation, type the character, or do nothing.
pub open spec fn edit_step(
    v: EditorView,
    ev: Event,
    reply: Result<SearchReply, LookupError>,
) -> EditorView {
    let v1 = clear_guide(v);
    let b = buffer_of(v1);
    match resolve_edit_action(v.keybinds, ev) {
        EditAction::Completion => completion_step(v1, reply),
        EditAction::Backward => with_buffer(v1, buffer::backward_spec(b)),
        EditAction::Forward => with_buffer(v1, buffer::forward_spec(b)),
        EditAction::MoveToHead => with_buffer(v1, buffer::move_to_head_spec(b)),
        EditAction::MoveToTail => with_buffer(v1, buffer::move_to_tail_spec(b)),
        EditAction::MoveToPreviousNearest => with_buffer(
            v1,
            buffer::move_to_previous_nearest_spec(b, v.word_break_chars),
        ),
        EditAction::MoveToNextNearest => with_buffer(
            v1,
            buffer::move_to_next_nearest_spec(b, v.word_break_chars),
        ),
        EditAction::Erase => with_buffer(v1, buffer::erase_spec(b)),
        EditAction::EraseAll => with_buffer(v1, buffer::erase_all_spec(b)),
        EditAction::EraseToPreviousNearest => with_buffer(
            v1,
            buffer::erase_to_previous_nearest_spec(b, v.word_break_chars),
        ),
        EditAction::EraseToNextNearest => with_buffer(
            v1,
            buffer::erase_to_next_nearest_spec(b, v.word_break_chars),
        ),
        EditAction::InputChar(c) => match v.edit_mode {
            EditMode::Insert => with_buffer(v1, buffer::insert_spec(b, c)),
            EditMode::Overwrite => with_buffer(v1, buffer::overwrite_spec(b, c)),
        },
        EditAction::Noop => v1,
    }
}

/// Whether a keystroke is the fixed next-candidate navigation: a plain Tab
/// or a plain Down arrow.
pub open spec fn is_nav_down(ev: Event) -> bool {
    ev == Event::Key(Keystroke::spec_plain(KeyCode::Tab)) || ev == Event::Key(
        Keystroke::spec_plain(KeyCode::Down),
    )
}

/// One Search-Navigation dispatch: Tab or Down advances to `d.item`; the
/// configured step-up keystroke moves back to `d.item`; any other event
/// leaves the search and replays the same event through the Edit handler.
/// Navigation keeps the guide message; the exit path clears it because the
/// Edit handler does.
pub open spec fn search_step(v: EditorView, ev: Event, d: ProviderData) -> EditorView {
    if is_nav_down(ev) {
        with_buffer(v, buffer::replace_spec(d.item))
    } else if ev == Event::Key(v.keybinds.search_up) {
        with_buffer(v, buffer::replace_spec(d.item))
    } else {
        edit_step(EditorView { mode: Mode::Edit, ..v }, ev, d.reply)
    }
}

/// One dispatch of the active mode's handler.
pub open spec fn operate_step(v: EditorView, ev: Event, d: ProviderData) -> EditorView {
    if v.mode is Edit {
        edit_step(v, ev, d.reply)
    } else {
        search_step(v, ev, d)
    }
}

/// Copies a theme's four fields onto the display attributes.
pub open spec fn apply_theme(v: EditorView, t: ThemeView) -> EditorView {
    EditorView {
        prefix: t.prefix,
        prefix_style: t.prefix_style,
        active_char_style: t.active_char_style,
        inactive_char_style: t.inactive_char_style,
        ..v
    }
}

/// `focus` applies the focused theme and changes nothing else.
pub open spec fn focus_step(v: EditorView) -> EditorView {
    apply_theme(v, v.focus_theme)
}

/// `defocus` applies the unfocused theme, forces Edit mode, and empties
/// the guide message.
pub open spec fn defocus_step(v: EditorView) -> EditorView {
    EditorView { mode: Mode::Edit, guide_text: Seq::empty(), ..apply_theme(v, v.defocus_theme) }
}

/// The display attributes of a state, as a theme value.
pub open spec fn display_of(v: EditorView) -> ThemeView {
    ThemeView {
        prefix: v.prefix,
        prefix_style: v.prefix_style,
        active_char_style: v.active_char_style,
        inactive_char_style: v.inactive_char_style,
    }
}

/// The part of the state that the mode handlers decide independently of
/// the display attributes: buffer, mode, and guide line.
#[verifier::ext_equal]
pub struct DispatchCore {
    pub mode: Mode,
    pub text: Seq<char>,
    pub cursor: int,
    pub guide_text: Seq<char>,
    pub guide_style: Style,
}

/// The dispatch-relevant core of a state.
pub open spec fn dispatch_core(v: EditorView) -> DispatchCore {
    DispatchCore {
        mode: v.mode,
        text: v.text,
        cursor: v.cursor,
        guide_text: v.guide_text,
        guide_style: v.guide_style,
    }
}

/// The input dispatcher. It owns the buffer state, the theme pair, the
/// guide line, the keybinding table, the current mode, and the search
/// provider.
pub struct Editor<P: SearchProvider> {
    pub mode: Mode,
    pub state: BufferState,
    pub focus_theme: EditorTheme,
    pub defocus_theme: EditorTheme,
    pub guide: Guide,
    pub searcher: P,
    pub keybinds: Keybinds,
}

impl<P: SearchProvider> View for Editor<P> {
    type V = EditorView;

    open spec fn view(&self) -> EditorView {
        EditorView {
            mode: self.mode,
            text: self.state.texteditor@.text,
            cursor: self.state.texteditor@.cursor,
            edit_mode: self.state.edit_mode,
            word_break_chars: self.state.word_break_chars@,
            prefix: self.state.prefix@,
            prefix_style: self.state.prefix_style,
            active_char_style: self.state.active_char_style,
            inactive_char_style: self.state.inactive_char_style,
            guide_text: self.guide.text@,
            guide_style: self.guide.style,
            focus_theme: theme_view(self.focus_theme),
            defocus_theme: theme_view(self.defocus_theme),
            keybinds: self.keybinds,
        }
    }
}

impl<P: SearchProvider> Editor<P> {
    /// The dispatcher's invariant: its buffer is well formed.
    pub open spec fn wf(&self) -> bool {
        self.state.texteditor.wf()
    }

    /// A dispatcher over `state` and `searcher`, in Edit mode, with an
    /// empty guide line.
    pub fn new(
        state: BufferState,
        searcher: P,
        focus_theme: EditorTheme,
        defocus_theme: EditorTheme,
        keybinds: Keybinds,
    ) -> (r: Editor<P>)
        requires
            state.texteditor.wf(),
        ensures
            r.wf(),
            r.mode == Mode::Edit,
            r.state == state,
            r.focus_theme == focus_theme,
            r.defocus_theme == defocus_theme,
            r.keybinds == keybinds,
            r.searcher == searcher,
            r@.guide_text == Seq::<char>::empty(),
            r@.guide_style == Style::spec_plain(),
    {
        Editor {
            mode: Mode::Edit,
            state,
            focus_theme,
            defocus_theme,
            guide: Guide { text: String::new(), style: Style::plain() },
            searcher,
            keybinds,
        }
    }

    /// Applies the focused theme onto the buffer's display attributes;
    /// nothing else changes.
    pub fn focus(&mut self)
        requires
            old(self).wf(),
        ensures
            final(self).wf(),
            final(self)@ == focus_step(old(self)@),
            final(self).searcher == old(self).searcher,
    {
        self.state.prefix = self.focus_theme.prefix.clone();
        self.state.prefix_style = self.focus_theme.prefix_style;
        self.state.inactive_char_style = self.focus_theme.inactive_char_style;
        self.state.active_char_style = self.focus_theme.active_char_style;
        proof {
            assert(self@ =~= focus_step(old(self)@));
        }
    }

    /// Applies the unfocused theme, discards any search session, forces
    /// Edit mode, and empties the guide message — whatever the prior mode.
    pub fn defocus(&mut self)
        requires
            old(self).wf(),
        ensures
            final(self).wf(),
            final(self)@ == defocus_step(old(self)@),
            final(self)@.mode is Edit,
            final(self)@.guide_text == Seq::<char>::empty(),
    {
        self.state.prefix = self.defocus_theme.prefix.clone();
        self.state.prefix_style = self.defocus_theme.prefix_style;
        self.state.inactive_char_style = self.defocus_theme.inactive_char_style;
        self.state.active_char_style = self.defocus_theme.active_char_style;
        self.searcher.leave_search();
        self.mode = Mode::Edit;
        self.guide.text = String::new();
        proof {
            assert(self@ =~= defocus_step(old(self)@));
        }
    }

    /// The buffer's text, without cursor markup.
    pub fn text(&self) -> (r: String)
        ensures
            r@ == self@.text,
    {
        self.state.texteditor.text_without_cursor()
    }

    /// Routes the event to the active mode's handler. Dispatch itself
    /// always succeeds; the result channel exists for the host's sake.
    /// When the handler consults the provider, the new state is
    /// `operate_step` of some provider answer; when it does not — any
    /// Edit-mode dispatch of a non-completion keystroke — the new state is
    /// `operate_step` of every answer and the provider is left untouched.
    pub fn operate(&mut self, event: &Event) -> (r: Result<(), LookupError>)
        requires
            old(self).wf(),
        ensures
            final(self).wf(),
            r is Ok,
            exists|d: ProviderData| final(self)@ == operate_step(old(self)@, *event, d),
            (old(self)@.mode is Edit && !(resolve_edit_action(old(self)@.keybinds, *event)
                is Completion)) ==> forall|d: ProviderData|
                final(self)@ == operate_step(old(self)@, *event, d),
            (old(self)@.mode is Edit && !(resolve_edit_action(old(self)@.keybinds, *event)
                is Completion)) ==> final(self).searcher == old(self).searcher,
    {
        let m = self.mode;
        match m {
            Mode::Edit => {
                let r = edit(event, self);
                proof {
                    let reply = choose|reply: Result<SearchReply, LookupError>|
                        self@ == edit_step(old(self)@, *event, reply);
                    let d = ProviderData { reply, item: Seq::empty() };
                    assert(self@ == operate_step(old(self)@, *event, d));
                }
                r
            },
            Mode::SearchNavigation => {
                let r = search(event, self);
                proof {
                    let d = choose|d: ProviderData|
                        self@ == search_step(old(self)@, *event, d);
                    assert(self@ == operate_step(old(self)@, *event, d));
                }
                r
            },
        }
    }
}

/// A provider reply that no transition reads; it witnesses the branches
/// that never asked the provider for a search.
pub open spec fn unread_reply() -> Result<SearchReply, LookupError> {
    Result::Ok(SearchReply { head_candidate: Option::None, fully_loaded: false, loaded_count: 0 })
}

/// Applies what a completion lookup returned: failure and empty answers
/// become guide messages; a head candidate replaces the buffer, sets the
/// load summary, and enters Search-Navigation mode.
pub fn apply_completion_result<P: SearchProvider>(
    editor: &mut Editor<P>,
    result: Result<SearchReply, LookupError>,
)
    requires
        old(editor).wf(),
    ensures
        final(editor).wf(),
        final(editor)@ == completion_step(old(editor)@, result),
        final(editor).searcher == old(editor).searcher,
{
    let ghost gres = result;
    match result {
        Result::Err(e) => {
            editor.guide.text = guide::lookup_failure_message(&e.kind, &e.message);
            editor.guide.style = Style::warning();
            proof {
                assert(editor@ =~= completion_step(old(editor)@, gres));
            }
        },
        Result::Ok(reply) => {
            match reply.head_candidate {
                Option::None => {
                    let prefix = editor.state.texteditor.text_up_to_cursor();
                    editor.guide.text = guide::no_suggestion_message(&prefix);
                    editor.guide.style = Style::warning();
                    proof {
                        assert(editor@ =~= completion_step(old(editor)@, gres));
                    }
                },
                Option::Some(head) => {
                    editor.guide.text = if reply.fully_loaded {
                        guide::loaded_all_message(reply.loaded_count)
                    } else {
                        guide::loaded_partially_message(reply.loaded_count)
                    };
                    editor.guide.style = Style::success();
                    editor.state.texteditor.replace(head.as_str());
                    editor.mode = Mode::SearchNavigation;
                    proof {
                        assert(editor@ =~= completion_step(old(editor)@, gres));
                    }
                },
            }
        },
    }
}

/// Resolves a keystroke against the binding table, in the dispatch
/// priority order.
fn resolve_action(kb: &Keybinds, ev: &Event) -> (a: EditAction)
    ensures
        a == resolve_edit_action(*kb, *ev),
{
    if *ev == Event::Key(kb.completion) {
        EditAction::Completion
    } else if *ev == Event::Key(kb.backward) {
        EditAction::Backward
    } else if *ev == Event::Key(kb.forward) {
        EditAction::Forward
    } else if *ev == Event::Key(kb.move_to_head) {
        EditAction::MoveToHead
    } else if *ev == Event::Key(kb.move_to_tail) {
        EditAction::MoveToTail
    } else if *ev == Event::Key(kb.move_to_previous_nearest) {
        EditAction::MoveToPreviousNearest
    } else if *ev == Event::Key(kb.move_to_next_nearest) {
        EditAction::MoveToNextNearest
    } else if *ev == Event::Key(kb.erase) {
        EditAction::Erase
    } else if *ev == Event::Key(kb.erase_all) {
        EditAction::EraseAll
    } else if *ev == Event::Key(kb.erase_to_previous_nearest) {
        EditAction::EraseToPreviousNearest
    } else if *ev == Event::Key(kb.erase_to_next_nearest) {
        EditAction::EraseToNextNearest
    } else {
        match ev {
            Event::Key(k) => match k.code {
                KeyCode::Char(c) => {
                    if k.kind == KeyEventKind::Press && !k.aux_state && (k.modifiers
                        == KeyModifiers::none() || k.modifiers == KeyModifiers::shift_only()) {
                        EditAction::InputChar(c)
                    } else {
                        EditAction::Noop
                    }
                },
                _ => EditAction::Noop,
            },
            Event::NonKey => EditAction::Noop,
        }
    }
}

/// The Edit-mode handler. It clears the guide message, resolves the
/// keystroke, and applies the bound action; only the completion branch
/// consults the provider — with the text up to the cursor as the search
/// prefix — so for every other keystroke the outcome is `edit_step` of
/// every reply and the provider is left untouched. An unbound,
/// non-printable keystroke leaves buffer and mode unchanged and only
/// clears the guide message.
pub fn edit<P: SearchProvider>(event: &Event, editor: &mut Editor<P>) -> (r: Result<
    (),
    LookupError,
>)
    requires
        old(editor).wf(),
    ensures
        final(editor).wf(),
        r is Ok,
        exists|reply: Result<SearchReply, LookupError>|
            final(editor)@ == edit_step(old(editor)@, *event, reply),
        !(resolve_edit_action(old(editor)@.keybinds, *event) is Completion) ==> forall|
            reply: Result<SearchReply, LookupError>,
        |
            final(editor)@ == edit_step(old(editor)@, *event, reply),
        !(resolve_edit_action(old(editor)@.keybinds, *event) is Completion)
            ==> final(editor).searcher == old(editor).searcher,
        resolve_edit_action(old(editor)@.keybinds, *event) is Noop ==> final(editor)@
            == clear_guide(old(editor)@),
{
    editor.guide.text = String::new();
    proof {
        assert(editor@ =~= clear_guide(old(editor)@));
    }
    let action = resolve_action(&editor.keybinds, event);
    match action {
        EditAction::Completion => {
            let prefix = editor.state.texteditor.text_up_to_cursor();
            let result = editor.searcher.start_search(prefix.as_str());
            let ghost gres = result;
            apply_completion_result(editor, result);
            proof {
                assert(editor@ == edit_step(old(editor)@, *event, gres));
            }
        },
        EditAction::Backward => {
            editor.state.texteditor.backward();
        },
        EditAction::Forward => {
            editor.state.texteditor.forward();
        },
        EditAction::MoveToHead => {
            editor.state.texteditor.move_to_head();
        },
        EditAction::MoveToTail => {
            editor.state.texteditor.move_to_tail();
        },
        EditAction::MoveToPreviousNearest => {
            editor.state.texteditor.move_to_previous_nearest(&editor.state.word_break_chars);
        },
        EditAction::MoveToNextNearest => {
            editor.state.texteditor.move_to_next_nearest(&editor.state.word_break_chars);
        },
        EditAction::Erase => {
            editor.state.texteditor.erase();
        },
        EditAction::EraseAll => {
            editor.state.texteditor.erase_all();
        },
        EditAction::EraseToPreviousNearest => {
            editor.state.texteditor.erase_to_previous_nearest(&editor.state.word_break_chars);
        },
        EditAction::EraseToNextNearest => {
            editor.state.texteditor.erase_to_next_nearest(&editor.state.word_break_chars);
        },
        EditAction::InputChar(ch) => {
            match editor.state.edit_mode {
                EditMode::Insert => editor.state.texteditor.insert(ch),
                EditMode::Overwrite => editor.state.texteditor.overwrite(ch),
            }
        },
        EditAction::Noop => {},
    }
    proof {
        if !(resolve_edit_action(old(editor)@.keybinds, *event) is Completion) {
            assert forall|reply: Result<SearchReply, LookupError>|
                editor@ == edit_step(old(editor)@, *event, reply) by {
                assert(editor@ =~= edit_step(old(editor)@, *event, reply));
            }
            assert(editor@ == edit_step(old(editor)@, *event, unread_reply()));
        }
    }
    Ok(())
}

/// Whether the event is the fixed next-candidate navigation.
fn is_nav_down_event(ev: &Event) -> (r: bool)
    ensures
        r == is_nav_down(*ev),
{
    *ev == Event::Key(Keystroke::plain(KeyCode::Tab)) || *ev == Event::Key(
        Keystroke::plain(KeyCode::Down),
    )
}

/// The Search-Navigation handler. Tab or Down advances the provider and
/// shows its current candidate; the configured step-up keystroke moves
/// back; any other event discards the session, reverts to Edit mode, and
/// replays the same event through the Edit handler, so no event is dropped
/// at the mode boundary.
pub fn search<P: SearchProvider>(event: &Event, editor: &mut Editor<P>) -> (r: Result<
    (),
    LookupError,
>)
    requires
        old(editor).wf(),
    ensures
        final(editor).wf(),
        r is Ok,
        exists|d: ProviderData| final(editor)@ == search_step(old(editor)@, *event, d),
{
    if is_nav_down_event(event) {
        editor.searcher.down_with_load();
        let item = editor.searcher.get_current_item();
        let ghost gitem = item@;
        editor.state.texteditor.replace(item.as_str());
        proof {
            let d = ProviderData { reply: unread_reply(), item: gitem };
            assert(editor@ =~= search_step(old(editor)@, *event, d));
        }
        Ok(())
    } else if *event == Event::Key(editor.keybinds.search_up) {
        editor.searcher.up();
        let item = editor.searcher.get_current_item();
        let ghost gitem = item@;
        editor.state.texteditor.replace(item.as_str());
        proof {
            let d = ProviderData { reply: unread_reply(), item: gitem };
            assert(editor@ =~= search_step(old(editor)@, *event, d));
        }
        Ok(())
    } else {
        editor.searcher.leave_search();
        editor.mode = Mode::Edit;
        let ghost mid = editor@;
        proof {
            assert(mid =~= EditorView { mode: Mode::Edit, ..old(editor)@ });
        }
        let r = edit(event, editor);
        proof {
            let reply = choose|reply: Result<SearchReply, LookupError>|
                editor@ == edit_step(mid, *event, reply);
            let d = ProviderData { reply, item: Seq::empty() };
            assert(editor@ == search_step(old(editor)@, *event, d));
        }
        r
    }
}

/// Leaving Search-Navigation on a non-navigation keystroke dispatches that
/// keystroke exactly as Edit mode would after a defocus: buffer, mode, and
/// guide line end equal whichever way the provider answers. Only the
/// display attributes differ, because `defocus` also applies the unfocused
/// theme.
#[verifier::rlimit(100)]
pub proof fn lemma_search_exit_matches_defocused_edit(v: EditorView, ev: Event, d: ProviderData)
    requires
        !is_nav_down(ev),
        ev != Event::Key(v.keybinds.search_up),
    ensures
        dispatch_core(search_step(v, ev, d)) == dispatch_core(
            edit_step(defocus_step(v), ev, d.reply),
        ),
{
    let a = edit_step(EditorView { mode: Mode::Edit, ..v }, ev, d.reply);
    let b = edit_step(defocus_step(v), ev, d.reply);
    assert(dispatch_core(a) =~= dispatch_core(b));
}

/// Focusing, defocusing, and focusing again restores exactly the focused
/// theme's prefix and style fields: re-application is idempotent on the
/// display attributes.
pub proof fn lemma_focus_roundtrip(v: EditorView)
    ensures
        display_of(focus_step(defocus_step(focus_step(v)))) == display_of(focus_step(v)),
        display_of(focus_step(defocus_step(focus_step(v)))) == v.focus_theme,
{
    assert(display_of(focus_step(defocus_step(focus_step(v)))) =~= display_of(focus_step(v)));
    assert(display_of(focus_step(v)) =~= v.focus_theme);
}

} // verus!
