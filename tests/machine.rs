use todo_tui::events::{handle_events, KeyPress, Reaction};
use todo_tui::states::{CreateTab, Screens, States, MAX_DESCRIPTION_LEN, MAX_TITLE_LEN};
use todo_tui::todo::{Todo, Todos};

fn store_with(titles: &[&str]) -> Todos {
    let v = titles
        .iter()
        .map(|t| Todo {
            title: t.to_string(),
            description: String::new(),
            due_date: String::new(),
            done: false,
        })
        .collect();
    Todos::new(v, String::from("todos.json"))
}

fn press(todos: &mut Todos, states: &mut States, key: KeyPress) -> Reaction {
    handle_events(todos, states, key)
}

fn type_text(todos: &mut Todos, states: &mut States, text: &str) {
    for c in text.chars() {
        press(todos, states, KeyPress::Char(c));
    }
}

#[test]
fn create_a_task_through_the_form() {
    let mut todos = store_with(&[]);
    let mut states = States::new();
    assert!(press(&mut todos, &mut states, KeyPress::Char('a')).write.is_none());
    assert_eq!(states.get_screen(), Screens::Create);
    press(&mut todos, &mut states, KeyPress::Char('i'));
    type_text(&mut todos, &mut states, "Buy milk");
    press(&mut todos, &mut states, KeyPress::Esc);
    press(&mut todos, &mut states, KeyPress::Tab);
    press(&mut todos, &mut states, KeyPress::Char('i'));
    type_text(&mut todos, &mut states, "2024-01-01");
    press(&mut todos, &mut states, KeyPress::Esc);
    press(&mut todos, &mut states, KeyPress::Tab);
    let r = press(&mut todos, &mut states, KeyPress::Char('a'));
    assert!(!r.quit);
    assert_eq!(todos.len(), 1);
    let t = todos.get_todo(0).unwrap();
    assert_eq!(t.title, "Buy milk");
    assert_eq!(t.due_date, "2024-01-01");
    assert_eq!(t.description, "");
    assert!(!t.done);
    assert_eq!(states.get_screen(), Screens::Main);
    assert_eq!(
        r.write.unwrap(),
        "[{\"title\":\"Buy milk\",\"description\":\"\",\"due_date\":\"2024-01-01\",\"done\":false}]"
    );
    assert_eq!(states.get_title(), "");
    assert_eq!(states.selected(), Some(0));
}

#[test]
fn toggle_flips_done_and_the_label() {
    let mut todos = store_with(&["Buy milk"]);
    let mut states = States::new();
    assert_eq!(todos.get_todos_titles()[0], "✘ Buy milk");
    let r = press(&mut todos, &mut states, KeyPress::Char('t'));
    assert!(todos.get_todo(0).unwrap().done);
    assert_eq!(todos.get_todos_titles()[0], "✔ Buy milk");
    assert_eq!(r.write.unwrap(), todos.write());
}

#[test]
fn delete_the_only_task_then_commands_do_nothing() {
    let mut todos = store_with(&["Buy milk"]);
    let mut states = States::new();
    let r = press(&mut todos, &mut states, KeyPress::Char('d'));
    assert_eq!(r.write.unwrap(), "[]");
    assert_eq!(todos.len(), 0);
    assert_eq!(states.selected(), None);
    for c in ['t', 'e', 'd'] {
        let r = press(&mut todos, &mut states, KeyPress::Char(c));
        assert!(r.write.is_none());
        assert!(!r.quit);
        assert_eq!(todos.len(), 0);
        assert_eq!(states.selected(), None);
        assert_eq!(states.get_screen(), Screens::Main);
    }
}

#[test]
fn deleting_the_selected_last_task_selects_the_new_last() {
    let mut todos = store_with(&["a", "b", "c"]);
    let mut states = States::new();
    press(&mut todos, &mut states, KeyPress::Down);
    press(&mut todos, &mut states, KeyPress::Down);
    assert_eq!(states.selected(), Some(2));
    press(&mut todos, &mut states, KeyPress::Char('d'));
    assert_eq!(todos.len(), 2);
    assert_eq!(states.selected(), Some(1));
}

#[test]
fn navigation_saturates_at_both_ends() {
    let mut todos = store_with(&["a", "b"]);
    let mut states = States::new();
    press(&mut todos, &mut states, KeyPress::Up);
    assert_eq!(states.selected(), Some(0));
    press(&mut todos, &mut states, KeyPress::Down);
    press(&mut todos, &mut states, KeyPress::Down);
    press(&mut todos, &mut states, KeyPress::Down);
    assert_eq!(states.selected(), Some(1));
    press(&mut todos, &mut states, KeyPress::Up);
    press(&mut todos, &mut states, KeyPress::Up);
    assert_eq!(states.selected(), Some(0));
}

#[test]
fn quit_only_from_the_list_screen() {
    let mut todos = store_with(&[]);
    let mut states = States::new();
    press(&mut todos, &mut states, KeyPress::Char('a'));
    let r = press(&mut todos, &mut states, KeyPress::Char('q'));
    assert!(!r.quit);
    assert_eq!(states.get_screen(), Screens::Main);
    let r = press(&mut todos, &mut states, KeyPress::Char('q'));
    assert!(r.quit);
}

#[test]
fn edit_form_rewrites_the_selected_task() {
    let mut todos = store_with(&["a", "b"]);
    todos.toggle(1);
    let mut states = States::new();
    press(&mut todos, &mut states, KeyPress::Down);
    press(&mut todos, &mut states, KeyPress::Char('e'));
    assert_eq!(states.get_screen(), Screens::Edit);
    assert_eq!(states.get_title(), "b");
    press(&mut todos, &mut states, KeyPress::Char('i'));
    press(&mut todos, &mut states, KeyPress::Backspace);
    type_text(&mut todos, &mut states, "Bee");
    press(&mut todos, &mut states, KeyPress::Esc);
    let r = press(&mut todos, &mut states, KeyPress::Char('a'));
    assert!(r.write.is_some());
    assert_eq!(todos.len(), 2);
    assert_eq!(todos.get_todo(1).unwrap().title, "Bee");
    assert!(todos.get_todo(1).unwrap().done);
    assert_eq!(todos.get_todo(0).unwrap().title, "a");
    assert_eq!(states.get_screen(), Screens::Main);
}

#[test]
fn leaving_a_form_discards_the_buffers() {
    let mut todos = store_with(&[]);
    let mut states = States::new();
    press(&mut todos, &mut states, KeyPress::Char('a'));
    press(&mut todos, &mut states, KeyPress::Char('i'));
    type_text(&mut todos, &mut states, "draft");
    press(&mut todos, &mut states, KeyPress::Esc);
    assert!(!states.is_in_writting_mode());
    assert_eq!(states.get_screen(), Screens::Create);
    press(&mut todos, &mut states, KeyPress::Esc);
    assert_eq!(states.get_screen(), Screens::Main);
    assert_eq!(states.get_title(), "");
    assert_eq!(todos.len(), 0);
}

#[test]
fn typing_takes_space_and_tab_and_ignores_arrows() {
    let mut todos = store_with(&[]);
    let mut states = States::new();
    press(&mut todos, &mut states, KeyPress::Char('a'));
    press(&mut todos, &mut states, KeyPress::Char('i'));
    press(&mut todos, &mut states, KeyPress::Char('q'));
    press(&mut todos, &mut states, KeyPress::Char(' '));
    press(&mut todos, &mut states, KeyPress::Tab);
    press(&mut todos, &mut states, KeyPress::Up);
    press(&mut todos, &mut states, KeyPress::Enter);
    assert_eq!(states.get_title(), "q \t");
    assert_eq!(states.get_screen(), Screens::Create);
}

#[test]
fn tab_cycles_the_fields() {
    let mut todos = store_with(&[]);
    let mut states = States::new();
    press(&mut todos, &mut states, KeyPress::Char('a'));
    assert_eq!(states.get_selected_tab(), CreateTab::Title);
    press(&mut todos, &mut states, KeyPress::Tab);
    assert_eq!(states.get_selected_tab(), CreateTab::Date);
    press(&mut todos, &mut states, KeyPress::Tab);
    assert_eq!(states.get_selected_tab(), CreateTab::Description);
    press(&mut todos, &mut states, KeyPress::Tab);
    assert_eq!(states.get_selected_tab(), CreateTab::Title);
}

#[test]
fn title_cap_is_inclusive() {
    let mut states = States::new();
    states.set_screen(Screens::Create);
    for _ in 0..MAX_TITLE_LEN - 1 {
        states.add_char('x');
    }
    assert_eq!(states.get_nb_char_in_tab(CreateTab::Title), MAX_TITLE_LEN - 1);
    states.add_char('y');
    assert_eq!(states.get_nb_char_in_tab(CreateTab::Title), MAX_TITLE_LEN);
    assert!(states.get_title().ends_with('y'));
    states.add_char('z');
    assert_eq!(states.get_nb_char_in_tab(CreateTab::Title), MAX_TITLE_LEN);
    assert!(states.get_title().ends_with('y'));
}

#[test]
fn description_cap_is_inclusive() {
    let mut states = States::new();
    states.set_screen(Screens::Create);
    states.next_tab();
    states.next_tab();
    for _ in 0..MAX_DESCRIPTION_LEN - 1 {
        states.add_char('é');
    }
    states.add_char('!');
    assert_eq!(states.get_nb_char_in_tab(CreateTab::Description), MAX_DESCRIPTION_LEN);
    states.add_char('?');
    assert_eq!(states.get_nb_char_in_tab(CreateTab::Description), MAX_DESCRIPTION_LEN);
    assert!(states.get_description().ends_with('!'));
    assert_eq!(states.get_nb_char_in_tab(CreateTab::Title), 0);
}

#[test]
fn add_str_respects_the_cap() {
    let mut states = States::new();
    states.next_tab();
    states.add_str("2024-01-01");
    assert_eq!(states.get_date(), "2024-01-01");
    states.add_str(&"x".repeat(23));
    assert_eq!(states.get_date(), "2024-01-01");
    states.add_str(&"x".repeat(22));
    assert_eq!(states.get_nb_char_in_tab(CreateTab::Date), 32);
}

#[test]
fn pop_char_on_an_empty_buffer_does_nothing() {
    let mut states = States::new();
    states.pop_char();
    assert_eq!(states.get_title(), "");
    states.add_char('ü');
    states.add_char('b');
    states.pop_char();
    assert_eq!(states.get_title(), "ü");
}

#[test]
fn edit_form_cuts_long_fields_to_their_caps() {
    let long = "t".repeat(40);
    let mut todos = store_with(&[long.as_str()]);
    let mut states = States::new();
    press(&mut todos, &mut states, KeyPress::Char('e'));
    assert_eq!(states.get_nb_char_in_tab(CreateTab::Title), MAX_TITLE_LEN);
}

#[test]
fn clear_strings_empties_all_buffers() {
    let mut states = States::new();
    states.add_char('a');
    states.next_tab();
    states.add_char('b');
    states.clear_strings();
    assert_eq!(states.get_title(), "");
    assert_eq!(states.get_date(), "");
    assert_eq!(states.get_description(), "");
}

#[test]
fn typing_cannot_start_on_the_list_screen() {
    let mut states = States::new();
    states.set_writting_mode(true);
    assert!(!states.is_in_writting_mode());
    states.set_screen(Screens::Create);
    states.set_writting_mode(true);
    assert!(states.is_in_writting_mode());
    states.set_screen(Screens::Main);
    assert!(!states.is_in_writting_mode());
}

#[test]
fn clamp_selection_follows_the_list() {
    let mut states = States::new();
    states.clamp_selection(3);
    assert_eq!(states.selected(), Some(0));
    states.clamp_selection(0);
    assert_eq!(states.selected(), None);
}
