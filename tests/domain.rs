use todo_lifecycle::domain::{OwnerId, Title, ToDo, ToDoId};
use todo_lifecycle::time::Timestamp;

fn incomplete_hello() -> ToDo {
    ToDo::parse(
        "hello",
        "hello",
        Some(String::from("INCOMPLETE")),
        Some(ToDoId::parse("hello").unwrap()),
        Some(String::from("This is the description")),
        None,
        None,
    )
    .unwrap()
}

fn complete_hello(date: Timestamp) -> ToDo {
    ToDo::parse(
        "hello",
        "hello",
        Some(String::from("COMPLETE")),
        Some(ToDoId::parse("hello").unwrap()),
        Some(String::from("This is the description")),
        None,
        Some(date),
    )
    .unwrap()
}

#[test]
fn domain_valid_data_should_return_validated_to_do() {
    let to_do = ToDo::new(
        "my title",
        "jameseastham",
        Some(String::from("This is the description")),
        None,
    );

    assert!(!to_do.is_err());
    assert_eq!(to_do.as_ref().unwrap().get_title(), "my title");
    assert_eq!(to_do.as_ref().unwrap().get_owner(), "jameseastham");
}

#[test]
fn domain_update_title_for_incomplete_todo_should_change() {
    let todo = incomplete_hello();

    let updated_todo = todo.update_title("my new title").unwrap();

    assert!(!updated_todo.is_complete());
    assert_eq!(updated_todo.get_title(), "my new title");
    assert!(updated_todo.has_changes());
}

#[test]
fn domain_update_title_for_completed_todo_should_not_change() {
    let todo = complete_hello(Timestamp::now());

    let updated_todo = todo.update_title("my new title").unwrap();

    assert!(updated_todo.is_complete());
    assert_eq!(updated_todo.get_title(), "hello");
    assert!(!updated_todo.has_changes());
}

#[test]
fn domain_update_status_for_incomplete_todo_should_change() {
    let todo = incomplete_hello();

    let updated_todo = todo.set_completed();

    assert!(updated_todo.is_complete());
    assert_eq!(updated_todo.get_title(), "hello");
}

#[test]
fn domain_update_status_for_completed_todo_should_not_change() {
    let date = Timestamp::now();
    let todo = complete_hello(date);

    let updated_todo = todo.set_completed();

    assert!(updated_todo.is_complete());
    assert_eq!(updated_todo.get_title(), "hello");
    assert_eq!(updated_todo.get_completed_on(), date.to_rfc3339());
}

#[test]
fn domain_new_id_should_return_valid_to_do_id() {
    let option_1 = Some("Hello");
    let option_2: Option<i32> = Some(123456);
    let option_3: Option<i32> = None;

    let valid_res = option_1
        .zip(option_2)
        .map(|(opt1, opt2)| -> String { format!("{opt1} - {opt2}") });

    let none_res = option_1
        .zip(option_3)
        .map(|(opt1, opt2)| -> String { format!("{opt1} - {opt2}") });

    assert_eq!(valid_res, Some("Hello - 123456".to_string()));
    assert_eq!(none_res, None);

    let to_do_id = ToDoId::new();

    assert_eq!(to_do_id.to_string().len(), 36)
}

#[test]
fn domain_parse_empty_id_should_return_validate_error() {
    let to_do_id = ToDoId::parse("");

    assert!(to_do_id.is_err());
}

#[test]
fn domain_empty_title_should_return_validate_error() {
    let to_do = Title::new("");

    assert!(to_do.is_err());
}

#[test]
fn domain_empty_owner_should_return_validate_error() {
    let owner = OwnerId::new("");

    assert!(owner.is_err());
}

#[test]
fn entities_new_id_should_return_valid_to_do_id() {
    let to_do_id = ToDoId::new();

    assert_eq!(to_do_id.to_string().len(), 36)
}

#[test]
fn entities_parse_empty_id_should_return_validate_error() {
    let to_do_id = ToDoId::parse(&String::from(""));

    assert_eq!(to_do_id.is_err(), true);
}

#[test]
fn entities_update_title_for_incomplete_todo_should_change() {
    let todo = ToDo::parse(
        "hello",
        "hello",
        None,
        Some(ToDoId::parse(&String::from("hello")).unwrap()),
        None,
        None,
        None,
    )
    .unwrap();

    let updated_todo = todo.update_title(&String::from("my new title")).unwrap();

    assert!(!updated_todo.is_complete());
    assert_eq!(updated_todo.get_title(), String::from("my new title"))
}

#[test]
fn entities_update_title_for_completed_todo_should_not_change() {
    let todo = complete_hello(Timestamp::now());

    let updated_todo = todo.update_title(&String::from("my new title")).unwrap();

    assert!(updated_todo.is_complete());
    assert_eq!(updated_todo.get_title(), String::from("hello"))
}

#[test]
fn entities_update_status_for_incomplete_todo_should_change() {
    let todo = incomplete_hello();

    let updated_todo = todo.set_completed();

    assert!(updated_todo.is_complete());
    assert_eq!(updated_todo.get_title(), String::from("hello"));
}

#[test]
fn entities_update_status_for_completed_todo_should_not_change() {
    let date = Timestamp::now();
    let todo = complete_hello(date);

    let updated_todo = todo.set_completed();

    assert!(updated_todo.is_complete());
    assert_eq!(updated_todo.get_title(), String::from("hello"));
    assert_eq!(updated_todo.get_completed_on(), date.to_rfc3339());
}

#[test]
fn new_todo_is_incomplete_unchanged_with_fresh_id() {
    let todo = ToDo::new("My todo", "alice", None, None).unwrap();

    assert!(!todo.is_complete());
    assert!(!todo.has_changes());
    assert_eq!(todo.get_id().len(), 36);
    assert_eq!(todo.get_status(), "INCOMPLETE");
    assert_eq!(todo.get_description(), "");
    assert_eq!(todo.get_due_date(), "");
    assert_eq!(todo.get_completed_on(), "");

    let other = ToDo::new("My todo", "alice", None, None).unwrap();
    assert_ne!(todo.get_id(), other.get_id());
}

#[test]
fn title_length_bounds() {
    let fifty = "a".repeat(50);
    let fifty_one = "a".repeat(51);
    let wide = "é".repeat(50);

    assert!(Title::new(&fifty).is_ok());
    assert!(Title::new(&wide).is_ok());
    let err = Title::new(&fifty_one).err().unwrap();
    assert_eq!(err.message(), "Must be between 1 and 50 chars");
    assert_eq!(err.to_string(), "Validation error: Must be between 1 and 50 chars");

    assert!(ToDo::new(&fifty_one, "alice", None, None).is_err());
    assert!(ToDo::new("", "alice", None, None).is_err());

    let todo = ToDo::new("ok", "alice", None, None).unwrap();
    assert!(todo.update_title(&fifty_one).is_err());
    let todo = ToDo::new("ok", "alice", None, None).unwrap();
    assert!(todo.update_title("").is_err());
}

#[test]
fn new_collects_both_field_errors() {
    let errors = ToDo::new("", "", None, None).err().unwrap();

    assert_eq!(errors.len(), 2);
    assert_eq!(errors[0].message(), "Must be between 1 and 50 chars");
    assert_eq!(errors[1].message(), "Owner Id must have a length");

    let errors = ToDo::new("fine", "", None, None).err().unwrap();
    assert_eq!(errors.len(), 1);
    assert_eq!(errors[0].message(), "Owner Id must have a length");
}

#[test]
fn long_owner_is_accepted() {
    let owner = "o".repeat(80);

    assert!(OwnerId::new(&owner).is_ok());
    assert!(ToDo::new("title", &owner, None, None).is_ok());
}

#[test]
fn parse_complete_without_date_is_an_error() {
    let res = ToDo::parse(
        "title",
        "owner",
        Some(String::from("COMPLETE")),
        Some(ToDoId::parse("id").unwrap()),
        None,
        None,
        None,
    );

    let errors = res.err().unwrap();
    assert_eq!(errors.len(), 1);
    assert_eq!(
        errors[0].message(),
        "If the status is complete a valid completed on date must be passed"
    );
}

#[test]
fn parse_keeps_existing_id_and_fields() {
    let due = Timestamp::parse_rfc3339("2023-08-13T00:00:00+00:00").unwrap();
    let done = Timestamp::parse_rfc3339("2023-08-14T10:30:00+02:00").unwrap();
    let todo = ToDo::parse(
        "title",
        "owner",
        Some(String::from("COMPLETE")),
        Some(ToDoId::parse("id-1").unwrap()),
        Some(String::from("Description")),
        Some(due),
        Some(done),
    )
    .unwrap();

    assert_eq!(todo.get_id(), "id-1");
    assert_eq!(todo.get_status(), "COMPLETE");
    assert_eq!(todo.get_description(), "Description");
    assert_eq!(todo.get_due_date(), "2023-08-13T00:00:00+00:00");
    assert_eq!(todo.get_completed_on(), "2023-08-14T10:30:00+02:00");
    assert!(!todo.has_changes());
}

#[test]
fn parse_unknown_status_is_incomplete_with_fresh_id() {
    let todo = ToDo::parse("title", "owner", Some(String::from("DONE")), None, None, None, None)
        .unwrap();

    assert_eq!(todo.get_status(), "INCOMPLETE");
    assert_eq!(todo.get_id().len(), 36);
}

#[test]
fn set_completed_twice_keeps_first_date() {
    let todo = ToDo::new("title", "owner", None, None).unwrap();

    let once = todo.set_completed();
    assert!(once.has_changes());
    let first_date = once.get_completed_on();
    assert!(!first_date.is_empty());

    let twice = once.set_completed();
    assert!(!twice.has_changes());
    assert_eq!(twice.get_completed_on(), first_date);
}

#[test]
fn update_description_applies_in_both_states() {
    let todo = ToDo::new("title", "owner", None, None).unwrap();
    let same = todo.update_description(None);
    assert!(!same.has_changes());

    let described = same.update_description(Some(String::from("notes")));
    assert_eq!(described.get_description(), "notes");
    assert!(described.has_changes());

    let done = ToDo::new("title", "owner", None, None).unwrap().set_completed().set_completed();
    assert!(!done.has_changes());
    let done = done.update_description(Some(String::from("after")));
    assert_eq!(done.get_description(), "after");
    assert!(done.has_changes());
}

#[test]
fn update_due_date_ignores_bad_text() {
    let todo = ToDo::new("title", "owner", None, None).unwrap();

    let unchanged = todo.update_due_date(Some(String::from("next tuesday")));
    assert_eq!(unchanged.get_due_date(), "");
    assert!(!unchanged.has_changes());

    let dated = unchanged.update_due_date(Some(String::from("2023-08-13T00:00:00+00:00")));
    assert_eq!(dated.get_due_date(), "2023-08-13T00:00:00+00:00");
    assert!(dated.has_changes());

    let kept = dated.update_due_date(None);
    assert_eq!(kept.get_due_date(), "2023-08-13T00:00:00+00:00");
}

#[test]
fn lifecycle_scenario() {
    let todo = ToDo::new("My todo", "alice", None, None).unwrap();
    assert!(!todo.is_complete());
    assert_eq!(todo.get_title(), "My todo");

    let todo = todo.update_title("Updated").unwrap();
    assert!(!todo.is_complete());
    assert_eq!(todo.get_title(), "Updated");
    assert!(todo.has_changes());

    let todo = todo.set_completed();
    assert!(todo.is_complete());
    assert!(!todo.get_completed_on().is_empty());

    let todo = todo.update_title("Ignored").unwrap();
    assert!(todo.is_complete());
    assert_eq!(todo.get_title(), "Updated");
}

#[test]
fn new_then_dto_then_parse_round_trip() {
    let todo = ToDo::new("Round trip", "bob", Some(String::from("d")), None).unwrap();
    let owner = todo.get_owner().to_string();
    let status = todo.get_status();
    let item = todo.into_dto();

    let status_text = if item.is_complete { "COMPLETE" } else { "INCOMPLETE" };
    assert_eq!(status_text, status);
    let parsed = ToDo::parse(
        &item.title,
        &owner,
        Some(status_text.to_string()),
        Some(ToDoId::parse(&item.id).unwrap()),
        None,
        None,
        Timestamp::parse_rfc3339(&item.completed_on),
    )
    .unwrap();

    assert_eq!(parsed.get_title(), "Round trip");
    assert_eq!(parsed.get_owner(), "bob");
    assert_eq!(parsed.get_status(), status);
    assert_eq!(parsed.get_id(), item.id);
}

#[test]
fn dto_shows_every_field() {
    let todo = ToDo::new("title", "owner", Some(String::from("desc")), None)
        .unwrap()
        .update_due_date(Some(String::from("2024-01-02T03:04:05-05:00")));
    let item = todo.as_dto();

    assert_eq!(item.title, "title");
    assert_eq!(item.id, todo.get_id());
    assert!(!item.is_complete);
    assert_eq!(item.description, "desc");
    assert_eq!(item.due_date, "2024-01-02T03:04:05-05:00");
    assert_eq!(item.completed_on, "");
}

#[test]
fn timestamp_reads_and_writes_rfc3339() {
    let t = Timestamp::parse_rfc3339("2023-08-13T00:00:00+00:00").unwrap();
    assert_eq!(t.unix_seconds(), 1691884800);
    assert_eq!(t.subsec_nanos(), 0);
    assert_eq!(t.offset_seconds(), 0);

    let shifted = Timestamp::parse_rfc3339("2023-08-13T02:00:00.5+02:00").unwrap();
    assert_eq!(shifted.unix_seconds(), 1691884800);
    assert_eq!(shifted.subsec_nanos(), 500_000_000);
    assert_eq!(shifted.offset_seconds(), 7200);
    assert_eq!(shifted.to_rfc3339(), "2023-08-13T02:00:00.500+02:00");

    assert!(Timestamp::parse_rfc3339("").is_none());
    assert!(Timestamp::parse_rfc3339("2023-13-01T00:00:00Z").is_none());
    assert_eq!(Timestamp::now().offset_seconds(), 0);
}

#[test]
fn value_objects_hand_back_their_text() {
    let title = Title::new("a title").unwrap();
    let owner = OwnerId::new("someone").unwrap();
    let id = ToDoId::parse("abc").unwrap();

    assert_eq!(title.to_string(), "a title");
    assert_eq!(title.get_value(), "a title");
    assert_eq!(owner.to_string(), "someone");
    assert_eq!(owner.get_value(), "someone");
    assert_eq!(id.to_string(), "abc");
    assert_eq!(id.get_value(), "abc");
    assert!(ToDoId::parse(&"x".repeat(51)).is_err());
}
