use todo::list::TodoList;
use todo::shell::{
    add_from_input, mark_done_at, mark_done_from_input, parse_position, position_to_index,
    remove_at, remove_from_input, Command, Outcome,
};

fn list_of(items: &[(&str, bool)]) -> TodoList {
    let mut l = TodoList::new();
    for (i, (t, d)) in items.iter().enumerate() {
        l.add_task(t.to_string());
        if *d {
            assert!(l.mark_done(i));
        }
    }
    l
}

fn entries(l: &TodoList) -> Vec<(String, bool)> {
    l.tasks.iter().map(|t| (t.task.clone(), t.done)).collect()
}

#[test]
fn new_list_is_empty() {
    let l = TodoList::new();
    assert!(l.is_empty());
    assert_eq!(l.len(), 0);
}

#[test]
fn add_then_list_shows_one_entry() {
    let mut l = TodoList::new();
    l.add_task("buy milk".to_string());
    assert_eq!(entries(&l), vec![("buy milk".to_string(), false)]);
}

#[test]
fn add_keeps_insertion_order() {
    let l = list_of(&[("a", false), ("b", false), ("c", false)]);
    let names: Vec<String> = entries(&l).into_iter().map(|e| e.0).collect();
    assert_eq!(names, vec!["a", "b", "c"]);
}

#[test]
fn mark_done_out_of_range_leaves_list() {
    let mut l = list_of(&[("a", false), ("b", false)]);
    assert!(!l.mark_done(2));
    assert!(!l.mark_done(usize::MAX));
    assert_eq!(entries(&l), vec![("a".to_string(), false), ("b".to_string(), false)]);
}

#[test]
fn mark_done_valid_index_sets_flag() {
    let mut l = list_of(&[("a", false), ("b", false)]);
    assert!(l.mark_done(1));
    assert_eq!(entries(&l), vec![("a".to_string(), false), ("b".to_string(), true)]);
    assert!(l.mark_done(1));
    assert_eq!(entries(&l), vec![("a".to_string(), false), ("b".to_string(), true)]);
}

#[test]
fn mark_done_on_empty_list_fails() {
    let mut l = TodoList::new();
    assert!(!l.mark_done(0));
    assert!(l.is_empty());
}

#[test]
fn remove_out_of_range_leaves_list() {
    let mut l = list_of(&[("a", false), ("b", true)]);
    assert!(!l.remove_task(2));
    assert_eq!(entries(&l), vec![("a".to_string(), false), ("b".to_string(), true)]);
}

#[test]
fn remove_valid_index_shifts_later_tasks() {
    let mut l = list_of(&[("a", false), ("b", true), ("c", false)]);
    assert!(l.remove_task(0));
    assert_eq!(entries(&l), vec![("b".to_string(), true), ("c".to_string(), false)]);
    assert!(l.remove_task(1));
    assert_eq!(entries(&l), vec![("b".to_string(), true)]);
    assert!(l.remove_task(0));
    assert!(l.is_empty());
}

#[test]
fn empty_list_json() {
    assert_eq!(TodoList::new().to_json(), "{\"tasks\":[]}");
}

#[test]
fn one_task_json() {
    let l = list_of(&[("buy milk", false)]);
    assert_eq!(l.to_json(), "{\"tasks\":[{\"task\":\"buy milk\",\"done\":false}]}");
}

#[test]
fn two_tasks_json() {
    let l = list_of(&[("buy milk", false), ("walk dog", true)]);
    assert_eq!(
        l.to_json(),
        "{\"tasks\":[{\"task\":\"buy milk\",\"done\":false},{\"task\":\"walk dog\",\"done\":true}]}"
    );
}

#[test]
fn description_is_escaped() {
    let l = list_of(&[("say \"hi\" \\ now\n", false)]);
    assert_eq!(
        l.to_json(),
        "{\"tasks\":[{\"task\":\"say \\\"hi\\\" \\\\ now\\n\",\"done\":false}]}"
    );
}

#[test]
fn json_round_trip_keeps_tasks() {
    let items = [("buy milk", false), ("quote \" and \\", true), ("é ✓ \t tab", false), ("", true)];
    let l = list_of(&items);
    let v: serde_json::Value = serde_json::from_str(&l.to_json()).unwrap();
    let tasks = v.get("tasks").unwrap().as_array().unwrap();
    assert_eq!(tasks.len(), items.len());
    for (t, (desc, done)) in tasks.iter().zip(items.iter()) {
        assert_eq!(t.get("task").unwrap().as_str().unwrap(), *desc);
        assert_eq!(t.get("done").unwrap().as_bool().unwrap(), *done);
    }
}

#[test]
fn empty_file_loads_empty_list() {
    let l = TodoList::from_contents("", Some(list_of(&[("a", false)])));
    assert!(l.is_empty());
}

#[test]
fn corrupt_file_loads_empty_list() {
    let contents = "{\"tasks\": [ not json";
    assert!(serde_json::from_str::<serde_json::Value>(contents).is_err());
    let l = TodoList::from_contents(contents, None);
    assert!(l.is_empty());
}

#[test]
fn decoded_file_loads_its_list() {
    let l = TodoList::from_contents("{}", Some(list_of(&[("a", true)])));
    assert_eq!(entries(&l), vec![("a".to_string(), true)]);
}

#[test]
fn menu_lines_select_commands() {
    assert_eq!(Command::parse("1\n"), Command::Add);
    assert_eq!(Command::parse("  2 "), Command::List);
    assert_eq!(Command::parse("3"), Command::MarkDone);
    assert_eq!(Command::parse("\t4\r\n"), Command::Remove);
    assert_eq!(Command::parse("q\n"), Command::Quit);
    assert_eq!(Command::parse(" Q \n"), Command::Quit);
}

#[test]
fn other_menu_lines_are_invalid() {
    assert_eq!(Command::parse(""), Command::Invalid);
    assert_eq!(Command::parse("5"), Command::Invalid);
    assert_eq!(Command::parse("11"), Command::Invalid);
    assert_eq!(Command::parse("quit"), Command::Invalid);
    assert_eq!(Command::from_normalized("Q"), Command::Invalid);
    assert_eq!(Command::from_normalized(" 1"), Command::Invalid);
}

#[test]
fn positions_are_read_as_numbers() {
    assert_eq!(parse_position(" 3\n"), Some(3));
    assert_eq!(parse_position("+2"), Some(2));
    assert_eq!(parse_position("0"), Some(0));
    assert_eq!(parse_position("abc"), None);
    assert_eq!(parse_position("-1"), None);
    assert_eq!(parse_position(""), None);
    assert_eq!(parse_position("1 2"), None);
    assert_eq!(parse_position("99999999999999999999999"), None);
}

#[test]
fn position_zero_names_no_task() {
    assert_eq!(position_to_index(0), None);
    assert_eq!(position_to_index(1), Some(0));
    assert_eq!(position_to_index(usize::MAX), Some(usize::MAX - 1));
}

#[test]
fn mark_done_outcomes() {
    let mut l = list_of(&[("a", false), ("b", false)]);
    assert_eq!(mark_done_from_input(&mut l, "0\n"), Outcome::InvalidNumber);
    assert_eq!(mark_done_from_input(&mut l, "3\n"), Outcome::InvalidNumber);
    assert_eq!(mark_done_from_input(&mut l, "two\n"), Outcome::InvalidInput);
    assert_eq!(entries(&l), vec![("a".to_string(), false), ("b".to_string(), false)]);
    assert_eq!(mark_done_from_input(&mut l, " 2\n"), Outcome::Updated);
    assert_eq!(entries(&l), vec![("a".to_string(), false), ("b".to_string(), true)]);
    assert_eq!(mark_done_at(&mut l, None), Outcome::InvalidInput);
}

#[test]
fn remove_outcomes() {
    let mut l = list_of(&[("a", false), ("b", true)]);
    assert_eq!(remove_from_input(&mut l, "0"), Outcome::InvalidNumber);
    assert_eq!(remove_from_input(&mut l, "x"), Outcome::InvalidInput);
    assert_eq!(remove_at(&mut l, Some(3)), Outcome::InvalidNumber);
    assert_eq!(entries(&l), vec![("a".to_string(), false), ("b".to_string(), true)]);
    assert_eq!(remove_from_input(&mut l, "1\n"), Outcome::Updated);
    assert_eq!(entries(&l), vec![("b".to_string(), true)]);
}

#[test]
fn added_description_is_trimmed() {
    let mut l = TodoList::new();
    add_from_input(&mut l, "  buy milk \n");
    assert_eq!(entries(&l), vec![("buy milk".to_string(), false)]);
}

#[test]
fn add_mark_remove_session() {
    let l = TodoList::from_contents("", None);
    let mut l = l;
    add_from_input(&mut l, "buy milk\n");
    assert_eq!(l.to_json(), "{\"tasks\":[{\"task\":\"buy milk\",\"done\":false}]}");
    assert_eq!(mark_done_from_input(&mut l, "1\n"), Outcome::Updated);
    assert_eq!(l.to_json(), "{\"tasks\":[{\"task\":\"buy milk\",\"done\":true}]}");
    assert_eq!(remove_from_input(&mut l, "1\n"), Outcome::Updated);
    assert_eq!(l.to_json(), "{\"tasks\":[]}");
}

#[test]
fn numbers_are_written_in_decimal() {
    assert_eq!(todo::listing::decimal(0), "0");
    assert_eq!(todo::listing::decimal(7), "7");
    assert_eq!(todo::listing::decimal(10), "10");
    assert_eq!(todo::listing::decimal(305), "305");
    assert_eq!(todo::listing::decimal(usize::MAX), usize::MAX.to_string());
}

#[test]
fn listing_shows_numbered_tasks() {
    let l = list_of(&[("buy milk", false), ("walk dog", true)]);
    assert_eq!(l.listing(), vec!["1. [ ] buy milk".to_string(), "2. [\u{2713}] walk dog".to_string()]);
    assert!(TodoList::new().listing().is_empty());
}

#[test]
fn add_then_listing_shows_one_entry() {
    let mut l = TodoList::new();
    add_from_input(&mut l, "read book\n");
    assert_eq!(l.listing(), vec!["1. [ ] read book".to_string()]);
}
