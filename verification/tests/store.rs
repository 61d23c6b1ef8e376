use todo_list::{CreateTodoRequest, Timestamp, TodoError, TodoItem, TodoList, UpdateTodoRequest};

fn at(secs: i64) -> Timestamp {
    Timestamp::new(secs, 0)
}

fn titled(title: &str) -> CreateTodoRequest {
    CreateTodoRequest { title: title.to_string(), description: None }
}

fn only_completed(id: &str, completed: bool) -> UpdateTodoRequest {
    UpdateTodoRequest { id: id.to_string(), title: None, description: None, completed: Some(completed) }
}

fn not_found(id: &str) -> TodoError {
    TodoError::NotFound { id: id.to_string() }
}

#[test]
fn new_list_is_empty() {
    let list = TodoList::new();
    assert_eq!(list.len(), 0);
    assert_eq!(list.list(), Vec::<TodoItem>::new());
}

#[test]
fn insert_builds_the_record_from_the_request() {
    let mut list = TodoList::new();
    let req = CreateTodoRequest {
        title: "Write report".to_string(),
        description: Some("Quarterly numbers".to_string()),
    };
    let item = list.insert("id-1".to_string(), Timestamp::new(100, 7), req);
    let expected = TodoItem {
        id: "id-1".to_string(),
        title: "Write report".to_string(),
        description: Some("Quarterly numbers".to_string()),
        completed: false,
        created_at: Timestamp::new(100, 7),
        updated_at: Timestamp::new(100, 7),
    };
    assert_eq!(item, expected);
    assert_eq!(list.list(), vec![expected]);
}

#[test]
fn create_without_description_then_get() {
    let mut list = TodoList::new();
    list.insert("other".to_string(), at(1), titled("Other"));
    let created = list.insert("abc".to_string(), at(5), titled("T"));
    let fetched = list.get(&created.id).unwrap();
    assert_eq!(fetched, created);
    assert_eq!(fetched.title, "T");
    assert!(!fetched.completed);
    assert_eq!(fetched.description, None);
    assert_eq!(fetched.created_at, fetched.updated_at);
}

#[test]
fn empty_title_is_accepted() {
    let mut list = TodoList::new();
    let item = list.insert("e".to_string(), at(1), titled(""));
    assert_eq!(item.title, "");
    assert_eq!(list.len(), 1);
}

#[test]
fn update_with_only_completed_keeps_title_and_description() {
    let mut list = TodoList::new();
    let req = CreateTodoRequest { title: "Call Ann".to_string(), description: Some("about Friday".to_string()) };
    let before = list.insert("k".to_string(), at(10), req);
    let after = list.update(only_completed("k", true), at(11)).unwrap();
    assert_eq!(after.id, "k");
    assert_eq!(after.title, before.title);
    assert_eq!(after.description, before.description);
    assert!(after.completed);
    assert_eq!(after.created_at, at(10));
    assert_eq!(after.updated_at, at(11));
    assert!(before.updated_at.is_before(&after.updated_at));
    assert_eq!(list.get("k").unwrap(), after);
}

#[test]
fn update_replaces_each_field_that_is_present() {
    let mut list = TodoList::new();
    list.insert("k".to_string(), at(10), titled("Old"));
    let req = UpdateTodoRequest {
        id: "k".to_string(),
        title: Some("New".to_string()),
        description: Some("now described".to_string()),
        completed: Some(true),
    };
    let after = list.update(req, Timestamp::new(10, 500)).unwrap();
    let expected = TodoItem {
        id: "k".to_string(),
        title: "New".to_string(),
        description: Some("now described".to_string()),
        completed: true,
        created_at: at(10),
        updated_at: Timestamp::new(10, 500),
    };
    assert_eq!(after, expected);
    assert_eq!(list.list(), vec![expected]);
}

#[test]
fn update_without_description_cannot_clear_it() {
    let mut list = TodoList::new();
    let req = CreateTodoRequest { title: "T".to_string(), description: Some("keep me".to_string()) };
    list.insert("k".to_string(), at(1), req);
    let req = UpdateTodoRequest { id: "k".to_string(), title: Some("T2".to_string()), description: None, completed: None };
    let after = list.update(req, at(2)).unwrap();
    assert_eq!(after.description, Some("keep me".to_string()));
    assert_eq!(after.title, "T2");
    assert!(!after.completed);
}

#[test]
fn update_can_set_completed_back_to_false() {
    let mut list = TodoList::new();
    list.insert("k".to_string(), at(1), titled("T"));
    list.complete("k", at(2)).unwrap();
    let after = list.update(only_completed("k", false), at(3)).unwrap();
    assert!(!after.completed);
    assert_eq!(after.updated_at, at(3));
}

#[test]
fn update_with_no_field_only_moves_updated_at() {
    let mut list = TodoList::new();
    let before = list.insert("k".to_string(), at(1), titled("T"));
    let req = UpdateTodoRequest { id: "k".to_string(), title: None, description: None, completed: None };
    let after = list.update(req, at(9)).unwrap();
    assert_eq!(after, TodoItem { updated_at: at(9), ..before });
}

#[test]
fn update_of_a_missing_id_fails_and_changes_nothing() {
    let mut list = TodoList::new();
    let a = list.insert("a".to_string(), at(1), titled("A"));
    let r = list.update(only_completed("zz", true), at(2));
    assert_eq!(r, Err(not_found("zz")));
    assert_eq!(list.list(), vec![a]);
}

#[test]
fn complete_marks_done_and_moves_updated_at() {
    let mut list = TodoList::new();
    let before = list.insert("k".to_string(), at(1), titled("T"));
    let after = list.complete("k", at(4)).unwrap();
    assert_eq!(after, TodoItem { completed: true, updated_at: at(4), ..before });
    assert_eq!(list.complete("nope", at(5)), Err(not_found("nope")));
}

#[test]
fn delete_then_get_fails_and_second_delete_fails() {
    let mut list = TodoList::new();
    list.insert("a".to_string(), at(1), titled("A"));
    list.insert("b".to_string(), at(2), titled("B"));
    assert_eq!(list.remove("a"), Ok("a".to_string()));
    assert_eq!(list.get("a"), Err(not_found("a")));
    assert_eq!(list.remove("a"), Err(not_found("a")));
    assert_eq!(list.len(), 1);
}

#[test]
fn list_after_deleting_the_middle_record() {
    let mut list = TodoList::new();
    let a = list.insert("a".to_string(), at(1), titled("A"));
    let b = list.insert("b".to_string(), at(2), titled("B"));
    let c = list.insert("c".to_string(), at(3), titled("C"));
    assert_eq!(list.list(), vec![a.clone(), b.clone(), c.clone()]);
    assert_eq!(list.remove(&b.id), Ok("b".to_string()));
    assert_eq!(list.list(), vec![a, c]);
}

#[test]
fn lookup_is_exact() {
    let mut list = TodoList::new();
    list.insert("Abc".to_string(), at(1), titled("A"));
    assert_eq!(list.get("abc"), Err(not_found("abc")));
    assert_eq!(list.get("Ab"), Err(not_found("Ab")));
    assert_eq!(list.get("Abcd"), Err(not_found("Abcd")));
    assert_eq!(list.get(""), Err(not_found("")));
    assert!(list.get("Abc").is_ok());
}

#[test]
fn lookup_finds_the_earliest_record_of_an_id() {
    let mut list = TodoList::new();
    let first = list.insert("dup".to_string(), at(1), titled("first"));
    let second = list.insert("dup".to_string(), at(2), titled("second"));
    assert_eq!(list.get("dup").unwrap(), first);
    assert_eq!(list.remove("dup"), Ok("dup".to_string()));
    assert_eq!(list.list(), vec![second]);
}

#[test]
fn ids_stay_unique_through_a_run_of_operations() {
    let mut list = TodoList::new();
    let ids = ["a", "b", "c", "d", "e"];
    for (n, id) in ids.iter().enumerate() {
        list.insert(id.to_string(), at(n as i64), titled(id));
        list.complete(id, at(10 + n as i64)).unwrap();
        if n % 2 == 1 {
            list.remove(ids[n - 1]).unwrap();
        }
        let items = list.list();
        for i in 0..items.len() {
            for j in (i + 1)..items.len() {
                assert_ne!(items[i].id, items[j].id);
            }
        }
    }
    let left: Vec<String> = list.list().into_iter().map(|t| t.id).collect();
    assert_eq!(left, vec!["b".to_string(), "d".to_string(), "e".to_string()]);
}

#[test]
fn length_is_creates_minus_deletes_in_any_order() {
    let mut one = TodoList::new();
    one.insert("a".to_string(), at(1), titled("A"));
    one.insert("b".to_string(), at(2), titled("B"));
    one.remove("a").unwrap();
    one.insert("c".to_string(), at(3), titled("C"));
    one.remove("missing").unwrap_err();
    assert_eq!(one.len(), 3 - 1);

    let mut other = TodoList::new();
    other.insert("c".to_string(), at(3), titled("C"));
    other.remove("missing").unwrap_err();
    other.insert("a".to_string(), at(1), titled("A"));
    other.remove("a").unwrap();
    other.insert("b".to_string(), at(2), titled("B"));
    assert_eq!(other.len(), 3 - 1);
}

#[test]
fn updated_at_never_precedes_created_at_under_an_advancing_clock() {
    let mut list = TodoList::new();
    list.insert("a".to_string(), at(1), titled("A"));
    list.insert("b".to_string(), at(2), titled("B"));
    list.complete("a", at(3)).unwrap();
    list.update(only_completed("b", true), Timestamp::new(2, 1)).unwrap();
    for item in list.list() {
        assert!(item.created_at.is_at_or_before(&item.updated_at));
    }
}

#[test]
fn timestamps_order_by_seconds_then_nanoseconds() {
    let a = Timestamp::new(5, 999_999_999);
    let b = Timestamp::new(6, 0);
    let c = Timestamp::new(6, 1);
    assert!(a.is_before(&b));
    assert!(b.is_before(&c));
    assert!(!c.is_before(&b));
    assert!(!b.is_before(&b));
    assert!(b.is_at_or_before(&b));
    assert!(a.is_at_or_before(&c));
    assert!(!c.is_at_or_before(&a));
    assert!(Timestamp::new(-1, 5).is_before(&Timestamp::new(0, 0)));
    assert_eq!(Timestamp::new(3, 4), Timestamp { secs: 3, nanos: 4 });
}

#[test]
fn list_hands_out_copies() {
    let mut list = TodoList::new();
    list.insert("a".to_string(), at(1), titled("A"));
    let mut snapshot = list.list();
    snapshot[0].title = "changed outside".to_string();
    snapshot.clear();
    assert_eq!(list.get("a").unwrap().title, "A");
    assert_eq!(list.len(), 1);
}
