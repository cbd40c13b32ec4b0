use vstd::prelude::*;
use vstd::string::StringExecFns;

use crate::todo::{TodoView, Todos};

verus! {

pub const MAX_TITLE_LEN: usize = 32;

pub const MAX_DATE_LEN: usize = 32;

pub const MAX_DESCRIPTION_LEN: usize = 4096;

/// In a form, the key that starts typing into the active field.
pub const ALL_KEY_EDIT: char = 'i';

/// The top-level mode of the interface.
#[derive(Clone, Copy, Debug, PartialEq, Eq, Structural)]
pub enum Screens {
    /// Browsing the list of tasks.
    Main,
    /// Composing a new task.
    Create,
    /// Changing the selected task.
    Edit,
}

/// The field of a form that receives typed characters.
#[derive(Clone, Copy, Debug, PartialEq, Eq, Structural)]
pub enum CreateTab {
    Title,
    Date,
    Description,
}

/// The mathematical value of [`States`].
pub struct StatesView {
    pub screen: Screens,
    pub selection: Option<usize>,
    pub typing: bool,
    pub title: Seq<char>,
    pub date: Seq<char>,
    pub description: Seq<char>,
    pub tab: CreateTab,
}

/// The most characters that the buffer of a field may hold.
pub open spec fn cap(tab: CreateTab) -> nat {
    match tab {
        CreateTab::Title => MAX_TITLE_LEN as nat,
        CreateTab::Date => MAX_DATE_LEN as nat,
        CreateTab::Description => MAX_DESCRIPTION_LEN as nat,
    }
}

/// The field that follows `tab` in the cycle Title, Date, Description.
pub open spec fn tab_after(tab: CreateTab) -> CreateTab {
    match tab {
        CreateTab::Title => CreateTab::Date,
        CreateTab::Date => CreateTab::Description,
        CreateTab::Description => CreateTab::Title,
    }
}

/// At most the first `n` characters of `s`.
pub open spec fn prefix(s: Seq<char>, n: nat) -> Seq<char> {
    if s.len() <= n {
        s
    } else {
        s.subrange(0, n as int)
    }
}

/// Selection kept in range of a list of `len` items: none for an empty list,
/// else the selected index, or the first one when there is none, or the last
/// one when it lies past the end.
pub open spec fn clamp(sel: Option<usize>, len: nat) -> Option<usize> {
    if len == 0 {
        None
    } else {
        match sel {
            None => Some(0),
            Some(i) => if i < len {
                Some(i)
            } else {
                Some((len - 1) as usize)
            },
        }
    }
}

/// The selection is none exactly when the list is empty, and in range otherwise.
pub open spec fn selection_valid(sel: Option<usize>, len: nat) -> bool {
    match sel {
        None => len == 0,
        Some(i) => i < len,
    }
}

/// The selection after a move down a list of `len` items: the next index,
/// but never past the last one.
pub open spec fn below(sel: Option<usize>, len: nat) -> Option<usize> {
    match sel {
        Some(i) => if i + 1 < len {
            Some((i + 1) as usize)
        } else {
            Some(i)
        },
        None => None,
    }
}

/// The selection after a move up: the previous index, but never before the first.
pub open spec fn above(sel: Option<usize>) -> Option<usize> {
    match sel {
        Some(i) => if i > 0 {
            Some((i - 1) as usize)
        } else {
            Some(i)
        },
        None => None,
    }
}

/// The state at startup: the list screen, nothing selected yet, empty
/// buffers, the title field active and keys read as commands.
pub open spec fn initial_states() -> StatesView {
    StatesView {
        screen: Screens::Main,
        selection: None,
        typing: false,
        title: Seq::empty(),
        date: Seq::empty(),
        description: Seq::empty(),
        tab: CreateTab::Title,
    }
}

impl StatesView {
    /// Each buffer within its cap; typing only on a form.
    pub open spec fn wf(self) -> bool {
        &&& self.title.len() <= MAX_TITLE_LEN
        &&& self.date.len() <= MAX_DATE_LEN
        &&& self.description.len() <= MAX_DESCRIPTION_LEN
        &&& self.typing ==> self.screen != Screens::Main
    }

    /// The buffer of a field.
    pub open spec fn buffer(self, tab: CreateTab) -> Seq<char> {
        match tab {
            CreateTab::Title => self.title,
            CreateTab::Date => self.date,
            CreateTab::Description => self.description,
        }
    }

    /// The same state with the buffer of `tab` replaced by `b`.
    pub open spec fn with_buffer(self, tab: CreateTab, b: Seq<char>) -> StatesView {
        match tab {
            CreateTab::Title => StatesView { title: b, ..self },
            CreateTab::Date => StatesView { date: b, ..self },
            CreateTab::Description => StatesView { description: b, ..self },
        }
    }

    /// `s` appended to the active buffer when the result fits its cap;
    /// otherwise the state is unchanged.
    pub open spec fn appended(self, s: Seq<char>) -> StatesView {
        if self.buffer(self.tab).len() + s.len() <= cap(self.tab) {
            self.with_buffer(self.tab, self.buffer(self.tab) + s)
        } else {
            self
        }
    }

    /// The last character of the active buffer removed, if it has one.
    pub open spec fn popped(self) -> StatesView {
        if self.buffer(self.tab).len() > 0 {
            self.with_buffer(self.tab, self.buffer(self.tab).drop_last())
        } else {
            self
        }
    }

    /// All three buffers emptied.
    pub open spec fn cleared(self) -> StatesView {
        StatesView { title: Seq::empty(), date: Seq::empty(), description: Seq::empty(), ..self }
    }

    /// The buffers loaded from a task, each cut to its cap.
    pub open spec fn filled(self, t: TodoView) -> StatesView {
        StatesView {
            title: prefix(t.title, MAX_TITLE_LEN as nat),
            date: prefix(t.due_date, MAX_DATE_LEN as nat),
            description: prefix(t.description, MAX_DESCRIPTION_LEN as nat),
            ..self
        }
    }
}

/// The cap is inclusive: a character typed into a full buffer is dropped,
/// and one typed into a buffer one short of its cap fills it exactly.
pub proof fn lemma_cap_is_inclusive(v: StatesView, c: char)
    ensures
        v.buffer(v.tab).len() == cap(v.tab) ==> v.appended(seq![c]) == v,
        v.buffer(v.tab).len() + 1 == cap(v.tab) ==> {
            &&& v.appended(seq![c]).buffer(v.tab) == v.buffer(v.tab).push(c)
            &&& v.appended(seq![c]).buffer(v.tab).len() == cap(v.tab)
        },
{
    assert(v.buffer(v.tab) + seq![c] =~= v.buffer(v.tab).push(c));
}

/// Relies on `String::push`: the character is added at the end.
#[verifier::external_body]
fn push_char(s: &mut String, c: char)
    ensures
        final(s)@ == old(s)@.push(c),
{
    s.push(c)
}

/// Appends `s` to `buf` when the result holds at most `cap` characters.
fn append_capped(buf: &mut String, cap: usize, s: &str)
    ensures
        old(buf)@.len() + s@.len() <= cap ==> final(buf)@ == old(buf)@ + s@,
        old(buf)@.len() + s@.len() > cap ==> final(buf)@ == old(buf)@,
{
    let n = buf.as_str().unicode_len();
    let m = s.unicode_len();
    if n <= cap && m <= cap - n {
        buf.append(s);
    }
}

/// Appends `c` to `buf` when the result holds at most `cap` characters.
fn push_capped(buf: &mut String, cap: usize, c: char)
    ensures
        old(buf)@.len() + 1 <= cap ==> final(buf)@ == old(buf)@.push(c),
        old(buf)@.len() + 1 > cap ==> final(buf)@ == old(buf)@,
{
    let n = buf.as_str().unicode_len();
    if n < cap {
        push_char(buf, c);
    }
}

/// Removes the last character of `buf`, if it has one.
fn pop_last(buf: &mut String)
    ensures
        old(buf)@.len() > 0 ==> final(buf)@ == old(buf)@.drop_last(),
        old(buf)@.len() == 0 ==> final(buf)@ == old(buf)@,
{
    let n = buf.as_str().unicode_len();
    if n > 0 {
        let shorter = buf.as_str().substring_char(0, n - 1).to_owned();
        *buf = shorter;
    }
}

/// At most the first `n` characters of `s`.
fn first_chars(s: &String, n: usize) -> (r: String)
    ensures
        r@ == prefix(s@, n as nat),
{
    let len = s.as_str().unicode_len();
    if len <= n {
        s.clone()
    } else {
        s.as_str().substring_char(0, n).to_owned()
    }
}


/// What the interface shows and edits: the screen, the selected task, the
/// buffers of the form and whether keys are typed into them.
pub struct States {
    selection: Option<usize>,
    screen: Screens,
    is_in_writting_mode: bool,
    title_string: String,
    date_string: String,
    description_string: String,
    selected_tab: CreateTab,
}

impl View for States {
    type V = StatesView;

    closed spec fn view(&self) -> StatesView {
        StatesView {
            screen: self.screen,
            selection: self.selection,
            typing: self.is_in_writting_mode,
            title: self.title_string@,
            date: self.date_string@,
            description: self.description_string@,
            tab: self.selected_tab,
        }
    }
}

impl States {
    /// The state at startup: the list screen, nothing selected yet, empty
    /// buffers, the title field active and keys read as commands.
    pub fn new() -> (r: States)
        ensures
            r@ == initial_states(),
            r@.wf(),
    {
        States {
            selection: None,
            screen: Screens::Main,
            is_in_writting_mode: false,
            title_string: String::new(),
            date_string: String::new(),
            description_string: String::new(),
            selected_tab: CreateTab::Title,
        }
    }

    /// The index of the selected task, if any.
    pub fn selected(&self) -> (r: Option<usize>)
        ensures
            r == self@.selection,
    {
        self.selection
    }

    pub fn get_screen(&self) -> (r: Screens)
        ensures
            r == self@.screen,
    {
        self.screen
    }

    pub fn is_in_writting_mode(&self) -> (r: bool)
        ensures
            r == self@.typing,
    {
        self.is_in_writting_mode
    }

    /// The field that receives typed characters.
    pub fn get_selected_tab(&self) -> (r: CreateTab)
        ensures
            r == self@.tab,
    {
        self.selected_tab
    }

    pub fn get_title(&self) -> (r: &String)
        ensures
            r@ == self@.title,
    {
        &self.title_string
    }

    pub fn get_date(&self) -> (r: &String)
        ensures
            r@ == self@.date,
    {
        &self.date_string
    }

    pub fn get_description(&self) -> (r: &String)
        ensures
            r@ == self@.description,
    {
        &self.description_string
    }

    /// Switches screen; leaving for the list screen also ends typing.
    pub fn set_screen(&mut self, screen: Screens)
        requires
            old(self)@.wf(),
        ensures
            final(self)@ == (StatesView {
                screen,
                typing: old(self)@.typing && screen != Screens::Main,
                ..old(self)@
            }),
            final(self)@.wf(),
    {
        self.screen = screen;
        if screen == Screens::Main {
            self.is_in_writting_mode = false;
        }
    }

    /// Starts or ends typing; typing can only start on a form.
    pub fn set_writting_mode(&mut self, value: bool)
        requires
            old(self)@.wf(),
        ensures
            final(self)@ == (StatesView {
                typing: value && old(self)@.screen != Screens::Main,
                ..old(self)@
            }),
            final(self)@.wf(),
    {
        self.is_in_writting_mode = value && self.screen != Screens::Main;
    }

    /// Appends `c` to the active buffer unless that would take it past its cap.
    pub fn add_char(&mut self, c: char)
        requires
            old(self)@.wf(),
        ensures
            final(self)@ == old(self)@.appended(seq![c]),
            final(self)@.wf(),
    {
        match self.selected_tab {
            CreateTab::Title => push_capped(&mut self.title_string, MAX_TITLE_LEN, c),
            CreateTab::Date => push_capped(&mut self.date_string, MAX_DATE_LEN, c),
            CreateTab::Description => push_capped(
                &mut self.description_string,
                MAX_DESCRIPTION_LEN,
                c,
            ),
        }
        proof {
            assert(old(self)@.buffer(old(self)@.tab).push(c) =~= old(self)@.buffer(old(self)@.tab)
                + seq![c]);
        }
    }

    /// Appends `s` to the active buffer unless that would take it past its cap.
    pub fn add_str(&mut self, s: &str)
        requires
            old(self)@.wf(),
        ensures
            final(self)@ == old(self)@.appended(s@),
            final(self)@.wf(),
    {
        match self.selected_tab {
            CreateTab::Title => append_capped(&mut self.title_string, MAX_TITLE_LEN, s),
            CreateTab::Date => append_capped(&mut self.date_string, MAX_DATE_LEN, s),
            CreateTab::Description => append_capped(
                &mut self.description_string,
                MAX_DESCRIPTION_LEN,
                s,
            ),
        }
    }

    /// Removes the last character of the active buffer, if it has one.
    pub fn pop_char(&mut self)
        requires
            old(self)@.wf(),
        ensures
            final(self)@ == old(self)@.popped(),
            final(self)@.wf(),
    {
        match self.selected_tab {
            CreateTab::Title => pop_last(&mut self.title_string),
            CreateTab::Date => pop_last(&mut self.date_string),
            CreateTab::Description => pop_last(&mut self.description_string),
        }
    }

    /// The number of characters in the buffer of `tab`.
    pub fn get_nb_char_in_tab(&self, tab: CreateTab) -> (r: usize)
        ensures
            r == self@.buffer(tab).len(),
    {
        match tab {
            CreateTab::Title => self.title_string.as_str().unicode_len(),
            CreateTab::Date => self.date_string.as_str().unicode_len(),
            CreateTab::Description => self.description_string.as_str().unicode_len(),
        }
    }

    /// Makes the next field of the cycle active.
    pub fn next_tab(&mut self)
        requires
            old(self)@.wf(),
        ensures
            final(self)@ == (StatesView { tab: tab_after(old(self)@.tab), ..old(self)@ }),
            final(self)@.wf(),
    {
        self.selected_tab = match self.selected_tab {
            CreateTab::Title => CreateTab::Date,
            CreateTab::Date => CreateTab::Description,
            CreateTab::Description => CreateTab::Title,
        };
    }

    /// Empties the three buffers.
    pub fn clear_strings(&mut self)
        requires
            old(self)@.wf(),
        ensures
            final(self)@ == old(self)@.cleared(),
            final(self)@.wf(),
    {
        self.title_string = String::new();
        self.date_string = String::new();
        self.description_string = String::new();
    }

    /// Brings the selection into range of a list of `len` tasks.
    pub fn clamp_selection(&mut self, len: usize)
        requires
            old(self)@.wf(),
        ensures
            final(self)@ == (StatesView { selection: clamp(old(self)@.selection, len as nat), ..old(self)@ }),
            selection_valid(final(self)@.selection, len as nat),
            final(self)@.wf(),
    {
        if len == 0 {
            self.selection = None;
        } else {
            match self.selection {
                None => self.selection = Some(0),
                Some(i) => if i >= len {
                    self.selection = Some(len - 1);
                },
            }
        }
    }

    /// Moves the selection one task down, staying on the last task of `todos`.
    pub fn scroll_down(&mut self, todos: &Todos)
        requires
            old(self)@.wf(),
        ensures
            final(self)@ == (StatesView { selection: below(old(self)@.selection, todos@.len()), ..old(self)@ }),
            final(self)@.wf(),
    {
        if let Some(i) = self.selection {
            if i < todos.len() && todos.len() - i > 1 {
                self.selection = Some(i + 1);
            }
        }
    }

    /// Moves the selection one task up, staying on the first task.
    pub fn scroll_up(&mut self)
        requires
            old(self)@.wf(),
        ensures
            final(self)@ == (StatesView { selection: above(old(self)@.selection), ..old(self)@ }),
            final(self)@.wf(),
    {
        if let Some(i) = self.selection {
            if i > 0 {
                self.selection = Some(i - 1);
            }
        }
    }

    /// Loads the buffers from the selected task, each cut to its cap; without
    /// a selected task, nothing changes.
    pub fn init_edit_mode(&mut self, todos: &Todos)
        requires
            old(self)@.wf(),
        ensures
            final(self)@ == (match old(self)@.selection {
                Some(i) => if i < todos@.len() {
                    old(self)@.filled(todos@[i as int])
                } else {
                    old(self)@
                },
                None => old(self)@,
            }),
            final(self)@.wf(),
    {
        if let Some(i) = self.selection {
            if let Some(t) = todos.get_todo(i) {
                self.title_string = first_chars(&t.title, MAX_TITLE_LEN);
                self.date_string = first_chars(&t.due_date, MAX_DATE_LEN);
                self.description_string = first_chars(&t.description, MAX_DESCRIPTION_LEN);
            }
        }
    }
}

impl Default for States {
    fn default() -> (r: States)
        ensures
            r@ == initial_states(),
    {
        States::new()
    }
}

} // verus!
