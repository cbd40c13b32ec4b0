use vstd::prelude::*;

use crate::codec::encoded;
use crate::states::{
    above, below, clamp, selection_valid, tab_after, Screens, States, StatesView,
    ALL_KEY_EDIT,
};
use crate::todo::{TodoView, Todos};

verus! {

/// One key press, as handed over by whatever reads the keyboard.
#[derive(Clone, Copy, Debug, PartialEq, Eq, Structural)]
pub enum KeyPress {
    Char(char),
    Up,
    Down,
    Enter,
    Esc,
    Backspace,
    Tab,
    /// Any other key.
    Other,
}

/// What the caller owes after a key press.
pub struct Reaction {
    /// The session ends.
    pub quit: bool,
    /// The text that the backing file must now hold, when the tasks changed.
    pub write: Option<String>,
}

/// The tasks with the completion flag of the selected one flipped.
pub open spec fn toggled(ts: Seq<TodoView>, sel: Option<usize>) -> Seq<TodoView> {
    match sel {
        Some(i) => if i < ts.len() {
            ts.update(i as int, TodoView { done: !ts[i as int].done, ..ts[i as int] })
        } else {
            ts
        },
        None => ts,
    }
}

/// The tasks without the selected one.
pub open spec fn removed(ts: Seq<TodoView>, sel: Option<usize>) -> Seq<TodoView> {
    match sel {
        Some(i) => if i < ts.len() {
            ts.remove(i as int)
        } else {
            ts
        },
        None => ts,
    }
}

/// The edit form opened on the selected task; without one, nothing changes.
pub open spec fn edit_opened(v: StatesView, ts: Seq<TodoView>) -> StatesView {
    match v.selection {
        Some(i) => if i < ts.len() {
            StatesView { screen: Screens::Edit, ..v.filled(ts[i as int]) }
        } else {
            v
        },
        None => v,
    }
}

/// The tasks after the form is committed: a new task on the create form, the
/// selected task rewritten (its flag kept) on the edit form.
pub open spec fn committed(v: StatesView, ts: Seq<TodoView>) -> Seq<TodoView> {
    if v.screen == Screens::Create {
        ts.push(TodoView { title: v.title, description: v.description, due_date: v.date, done: false })
    } else {
        match v.selection {
            Some(i) => if i < ts.len() {
                ts.update(
                    i as int,
                    TodoView {
                        title: v.title,
                        description: v.description,
                        due_date: v.date,
                        done: ts[i as int].done,
                    },
                )
            } else {
                ts
            },
            None => ts,
        }
    }
}

/// A key on the list screen: the new state, the new tasks, and whether to quit.
pub open spec fn main_step(v: StatesView, ts: Seq<TodoView>, key: KeyPress) -> (StatesView, Seq<
    TodoView,
>, bool) {
    if key == KeyPress::Char('q') {
        (v, ts, true)
    } else if key == KeyPress::Char('a') {
        (StatesView { screen: Screens::Create, ..v }.cleared(), ts, false)
    } else if key == KeyPress::Down {
        (StatesView { selection: below(v.selection, ts.len()), ..v }, ts, false)
    } else if key == KeyPress::Up {
        (StatesView { selection: above(v.selection), ..v }, ts, false)
    } else if key == KeyPress::Char('t') {
        (v, toggled(ts, v.selection), false)
    } else if key == KeyPress::Char('d') {
        (v, removed(ts, v.selection), false)
    } else if key == KeyPress::Char('e') {
        (edit_opened(v, ts), ts, false)
    } else {
        (v, ts, false)
    }
}

/// A key on a form while typing: text for the active buffer, or the end of typing.
pub open spec fn typing_step(v: StatesView, key: KeyPress) -> StatesView {
    match key {
        KeyPress::Esc => StatesView { typing: false, ..v },
        KeyPress::Backspace => v.popped(),
        KeyPress::Char(c) => v.appended(seq![c]),
        KeyPress::Tab => v.appended(seq!['\t']),
        _ => v,
    }
}

/// A key on a form: the new state and the new tasks.
pub open spec fn form_step(v: StatesView, ts: Seq<TodoView>, key: KeyPress) -> (StatesView, Seq<
    TodoView,
>) {
    if v.typing {
        (typing_step(v, key), ts)
    } else if key == KeyPress::Esc || key == KeyPress::Char('q') {
        (StatesView { screen: Screens::Main, ..v }.cleared(), ts)
    } else if key == KeyPress::Char(ALL_KEY_EDIT) {
        (StatesView { typing: true, ..v }, ts)
    } else if key == KeyPress::Tab {
        (StatesView { tab: tab_after(v.tab), ..v }, ts)
    } else if key == KeyPress::Char('a') {
        (StatesView { screen: Screens::Main, ..v }.cleared(), committed(v, ts))
    } else {
        (v, ts)
    }
}

/// Whether a key press changes the store (and so owes a write of the file):
/// a toggle or a delete of a selected task, or the commit of a form that has a
/// task to create or to rewrite.
pub open spec fn mutates(v: StatesView, ts: Seq<TodoView>, key: KeyPress) -> bool {
    let sel = clamp(v.selection, ts.len());
    if v.screen == Screens::Main {
        (key == KeyPress::Char('t') || key == KeyPress::Char('d')) && sel is Some
    } else {
        !v.typing && key == KeyPress::Char('a') && (v.screen == Screens::Create || sel is Some)
    }
}

/// One key press: the selection is brought into range, the key is dispatched
/// on the screen, and the selection is brought into range of the new tasks.
pub open spec fn step(v: StatesView, ts: Seq<TodoView>, key: KeyPress) -> (StatesView, Seq<
    TodoView,
>, bool) {
    let v0 = StatesView { selection: clamp(v.selection, ts.len()), ..v };
    let r = if v0.screen == Screens::Main {
        main_step(v0, ts, key)
    } else {
        (form_step(v0, ts, key).0, form_step(v0, ts, key).1, false)
    };
    (StatesView { selection: clamp(r.0.selection, r.1.len()), ..r.0 }, r.1, r.2)
}


/// Handles a key on the list screen.
fn handle_main_ui_events(todos: &mut Todos, states: &mut States, key: KeyPress) -> (r: Reaction)
    requires
        old(states)@.wf(),
        old(states)@.screen == Screens::Main,
        selection_valid(old(states)@.selection, old(todos)@.len()),
    ensures
        final(states)@ == main_step(old(states)@, old(todos)@, key).0,
        final(todos)@ == main_step(old(states)@, old(todos)@, key).1,
        r.quit == main_step(old(states)@, old(todos)@, key).2,
        final(todos).path() == old(todos).path(),
        r.write is None ==> final(todos)@ == old(todos)@,
        r.write is Some <==> mutates(old(states)@, old(todos)@, key),
        r.write matches Some(text) ==> text@ == encoded(final(todos)@),
        final(states)@.wf(),
{
    let mut write: Option<String> = None;
    let mut quit = false;
    if key == KeyPress::Char('q') {
        quit = true;
    } else if key == KeyPress::Char('a') {
        states.set_screen(Screens::Create);
        states.clear_strings();
    } else if key == KeyPress::Down {
        states.scroll_down(todos);
    } else if key == KeyPress::Up {
        states.scroll_up();
    } else if key == KeyPress::Char('t') {
        if let Some(i) = states.selected() {
            write = todos.toggle(i);
        }
    } else if key == KeyPress::Char('d') {
        if let Some(i) = states.selected() {
            write = todos.delete(i);
        }
    } else if key == KeyPress::Char('e') {
        if states.selected().is_some() {
            states.init_edit_mode(todos);
            states.set_screen(Screens::Edit);
        }
    }
    Reaction { quit, write }
}

/// Handles a key on the create or the edit form.
fn handle_create_ui_events(todos: &mut Todos, states: &mut States, key: KeyPress) -> (r: Reaction)
    requires
        old(states)@.wf(),
        old(states)@.screen != Screens::Main,
        selection_valid(old(states)@.selection, old(todos)@.len()),
    ensures
        final(states)@ == form_step(old(states)@, old(todos)@, key).0,
        final(todos)@ == form_step(old(states)@, old(todos)@, key).1,
        !r.quit,
        final(todos).path() == old(todos).path(),
        r.write is None ==> final(todos)@ == old(todos)@,
        r.write is Some <==> mutates(old(states)@, old(todos)@, key),
        r.write matches Some(text) ==> text@ == encoded(final(todos)@),
        final(states)@.wf(),
{
    let mut write: Option<String> = None;
    if states.is_in_writting_mode() {
        match key {
            KeyPress::Esc => states.set_writting_mode(false),
            KeyPress::Backspace => states.pop_char(),
            KeyPress::Char(c) => states.add_char(c),
            KeyPress::Tab => states.add_char('\t'),
            _ => {},
        }
    } else if key == KeyPress::Esc || key == KeyPress::Char('q') {
        states.set_screen(Screens::Main);
        states.clear_strings();
    } else if key == KeyPress::Char(ALL_KEY_EDIT) {
        states.set_writting_mode(true);
    } else if key == KeyPress::Tab {
        states.next_tab();
    } else if key == KeyPress::Char('a') {
        if states.get_screen() == Screens::Create {
            todos.add(
                states.get_title().clone(),
                states.get_description().clone(),
                states.get_date().clone(),
                false,
            );
            write = Some(todos.write());
        } else if let Some(i) = states.selected() {
            write = todos.edit(
                i,
                states.get_title().clone(),
                states.get_description().clone(),
                states.get_date().clone(),
            );
        }
        states.set_screen(Screens::Main);
        states.clear_strings();
    }
    Reaction { quit: false, write }
}

/// Handles one key press against the store.
///
/// The returned reaction says whether the session ends and, whenever the
/// tasks changed, the text that the backing file must hold from now on.
pub fn handle_events(todos: &mut Todos, states: &mut States, key: KeyPress) -> (r: Reaction)
    requires
        old(states)@.wf(),
    ensures
        final(states)@ == step(old(states)@, old(todos)@, key).0,
        final(todos)@ == step(old(states)@, old(todos)@, key).1,
        r.quit == step(old(states)@, old(todos)@, key).2,
        final(todos).path() == old(todos).path(),
        r.write is Some <==> mutates(old(states)@, old(todos)@, key),
        r.write matches Some(text) ==> text@ == encoded(final(todos)@),
        final(states)@.wf(),
        selection_valid(final(states)@.selection, final(todos)@.len()),
{
    states.clamp_selection(todos.len());
    let r = if states.get_screen() == Screens::Main {
        handle_main_ui_events(todos, states, key)
    } else {
        handle_create_ui_events(todos, states, key)
    };
    states.clamp_selection(todos.len());
    r
}

/// The states and tasks after a run of key presses, and whether one of them
/// asked to quit.
pub open spec fn run(v: StatesView, ts: Seq<TodoView>, keys: Seq<KeyPress>) -> (StatesView, Seq<
    TodoView,
>)
    decreases keys.len(),
{
    if keys.len() == 0 {
        (v, ts)
    } else {
        let r = run(v, ts, keys.drop_last());
        let s = step(r.0, r.1, keys.last());
        (s.0, s.1)
    }
}

/// The text of the backing file after a run of key presses, when it held
/// `file` before and each reaction's text was written as it came.
pub open spec fn file_after(file: Seq<char>, v: StatesView, ts: Seq<TodoView>, keys: Seq<KeyPress>) -> Seq<
    char,
>
    decreases keys.len(),
{
    if keys.len() == 0 {
        file
    } else {
        let r = run(v, ts, keys.drop_last());
        let prev = file_after(file, v, ts, keys.drop_last());
        if mutates(r.0, r.1, keys.last()) {
            encoded(step(r.0, r.1, keys.last()).1)
        } else {
            prev
        }
    }
}

/// A key press that owes no write leaves the tasks as they were.
pub proof fn lemma_unchanged_without_write(v: StatesView, ts: Seq<TodoView>, key: KeyPress)
    ensures
        !mutates(v, ts, key) ==> step(v, ts, key).1 == ts,
{
}

/// Write-through: when the file starts out holding the tasks, then after every
/// key press of any run, with each owed text written, the file holds exactly
/// the tasks as they are at that point.
pub proof fn lemma_write_through(
    file: Seq<char>,
    v: StatesView,
    ts: Seq<TodoView>,
    keys: Seq<KeyPress>,
)
    requires
        file == encoded(ts),
    ensures
        file_after(file, v, ts, keys) == encoded(run(v, ts, keys).1),
    decreases keys.len(),
{
    if keys.len() > 0 {
        lemma_write_through(file, v, ts, keys.drop_last());
        let r = run(v, ts, keys.drop_last());
        lemma_unchanged_without_write(r.0, r.1, keys.last());
    }
}

/// One key press keeps the state well formed and leaves the selection in range.
pub proof fn lemma_step_keeps_wf(v: StatesView, ts: Seq<TodoView>, key: KeyPress)
    requires
        v.wf(),
        ts.len() <= usize::MAX,
    ensures
        step(v, ts, key).0.wf(),
        selection_valid(step(v, ts, key).0.selection, step(v, ts, key).1.len()),
{
    let v0 = StatesView { selection: clamp(v.selection, ts.len()), ..v };
    lemma_clamp_valid(v.selection, ts.len());
    if v0.screen == Screens::Main {
        let r = main_step(v0, ts, key);
        assert(r.0.wf());
        assert(r.1.len() <= usize::MAX);
        lemma_clamp_valid(r.0.selection, r.1.len());
    } else {
        let r = form_step(v0, ts, key);
        assert(r.0.wf());
        assert(r.1.len() <= ts.len() + 1);
        lemma_clamp_valid(r.0.selection, r.1.len());
    }
}

/// A clamped selection is in range.
pub proof fn lemma_clamp_valid(sel: Option<usize>, len: nat)
    requires
        len <= usize::MAX + 1,
    ensures
        selection_valid(clamp(sel, len), len),
{
}

/// Deleting the selected last task on the list screen selects the new last
/// task, or nothing when the list is now empty.
pub proof fn lemma_delete_last_selected(v: StatesView, ts: Seq<TodoView>)
    requires
        v.screen == Screens::Main,
        0 < ts.len() <= usize::MAX,
        v.selection == Some((ts.len() - 1) as usize),
    ensures
        step(v, ts, KeyPress::Char('d')).1 == ts.drop_last(),
        ts.len() == 1 ==> step(v, ts, KeyPress::Char('d')).0.selection is None,
        ts.len() > 1 ==> step(v, ts, KeyPress::Char('d')).0.selection == Some((ts.len() - 2) as usize),
{
    let i = (ts.len() - 1) as usize;
    assert(clamp(v.selection, ts.len()) == Some(i));
    assert(ts.remove(i as int) =~= ts.drop_last());
}

} // verus!
