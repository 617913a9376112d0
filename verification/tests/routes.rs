use todo_actix::response::{Body, Response, StoreOutcome, respond_to_outcome};
use todo_actix::routes;
use todo_actix::store::TodoStore;
use todo_actix::todo::{CreateTodo, Todo, UpdateTodo};

fn item(id: i64, title: &str, description: &str) -> Todo {
    Todo { id, title: title.to_string(), description: description.to_string() }
}

/// A store holding (1,"todo1","description1"), (2,"todo2","description2"),
/// (3,"todo3","description3"), as the fixtures of the original service seed it.
fn seeded_store() -> TodoStore {
    let mut store = TodoStore::new();
    for i in 1..4 {
        routes::create_todo(
            &mut store,
            CreateTodo {
                title: format!("todo{}", i),
                description: format!("description{}", i),
            },
        );
    }
    store
}

fn body_item(r: Response) -> Todo {
    match r.body {
        Body::Item(t) => t,
        _ => panic!("expected a single item body"),
    }
}

fn body_items(r: Response) -> Vec<Todo> {
    match r.body {
        Body::Items(v) => v,
        _ => panic!("expected an item list body"),
    }
}

fn body_message(r: Response) -> String {
    match r.body {
        Body::Message(m) => m,
        _ => panic!("expected a plain-text body"),
    }
}

#[test]
fn list_todos() {
    let store = seeded_store();
    let response = routes::list_todos(&store);

    let status_code = response.status;
    let body: Vec<Todo> = body_items(response);
    assert_eq!(status_code, 200);
    assert_eq!(
        body,
        vec![
            item(1, "todo1", "description1"),
            item(2, "todo2", "description2"),
            item(3, "todo3", "description3"),
        ]
    );
}

#[test]
fn list_todos_empty() {
    let store = TodoStore::new();
    let response = routes::list_todos(&store);

    let status_code = response.status;
    let body: Vec<Todo> = body_items(response);
    assert_eq!(status_code, 200);
    assert_eq!(body, vec![]);
}

#[test]
fn get_todo() {
    let store = seeded_store();
    let response = routes::get_todo(&store, 2);

    let status_code = response.status;
    let body: Todo = body_item(response);
    assert_eq!(status_code, 200);
    assert_eq!(body, item(2, "todo2", "description2"));
}

#[test]
fn get_todo_not_found() {
    let store = TodoStore::new();
    let response = routes::get_todo(&store, 2);

    let status_code = response.status;
    let body = body_message(response);
    assert_eq!(status_code, 404);
    assert_eq!(body, "Not Found");
}

#[test]
fn create_todo() {
    let mut store = TodoStore::new();
    let response = routes::create_todo(
        &mut store,
        CreateTodo { title: "title".to_string(), description: "description".to_string() },
    );

    let status_code = response.status;
    let body: Todo = body_item(response);
    assert_eq!(status_code, 200);
    assert_eq!(body, item(1, "title", "description"));
}

#[test]
fn update_todo() {
    let mut store = seeded_store();
    let response = routes::update_todo(
        &mut store,
        2,
        UpdateTodo { title: "title".to_string(), description: "description".to_string() },
    );

    let status_code = response.status;
    let body: Todo = body_item(response);
    assert_eq!(status_code, 200);
    assert_eq!(body, item(2, "title", "description"));
}

#[test]
fn update_todo_not_found() {
    let mut store = TodoStore::new();
    let response = routes::update_todo(
        &mut store,
        999,
        UpdateTodo { title: "title".to_string(), description: "description".to_string() },
    );

    let status_code = response.status;
    let body = body_message(response);
    assert_eq!(status_code, 404);
    assert_eq!(body, "Not Found");
}

#[test]
fn delete_todo() {
    let mut store = seeded_store();
    let response = routes::delete_todo(&mut store, 2);

    let status_code = response.status;
    let body: Todo = body_item(response);
    assert_eq!(status_code, 200);
    assert_eq!(body, item(2, "todo2", "description2"));
}

#[test]
fn delete_todo_not_found() {
    let mut store = TodoStore::new();
    let response = routes::delete_todo(&mut store, 999);

    let status_code = response.status;
    let body = body_message(response);
    assert_eq!(status_code, 404);
    assert_eq!(body, "Not Found");
}

#[test]
fn create_then_get_returns_equal_item() {
    let mut store = seeded_store();
    let created = body_item(routes::create_todo(
        &mut store,
        CreateTodo { title: "fourth".to_string(), description: "d4".to_string() },
    ));
    let fetched = body_item(routes::get_todo(&store, created.id));
    assert_eq!(fetched, created);
}

#[test]
fn create_assigns_next_available_id() {
    let mut store = TodoStore::new();
    let first = body_item(routes::create_todo(
        &mut store,
        CreateTodo { title: "a".to_string(), description: "b".to_string() },
    ));
    assert_eq!(first.id, 1);
    let mut seeded = seeded_store();
    let fourth = body_item(routes::create_todo(
        &mut seeded,
        CreateTodo { title: "a".to_string(), description: "b".to_string() },
    ));
    assert_eq!(fourth.id, 4);
}

#[test]
fn deleted_id_is_not_reused() {
    let mut store = seeded_store();
    let deleted = body_item(routes::delete_todo(&mut store, 3));
    assert_eq!(deleted.id, 3);
    let created = body_item(routes::create_todo(
        &mut store,
        CreateTodo { title: "a".to_string(), description: "b".to_string() },
    ));
    assert_eq!(created.id, 4);
}

#[test]
fn update_preserves_id_and_other_items() {
    let mut store = seeded_store();
    let updated = body_item(routes::update_todo(
        &mut store,
        2,
        UpdateTodo { title: "t".to_string(), description: "d".to_string() },
    ));
    assert_eq!(updated, item(2, "t", "d"));
    let all = body_items(routes::list_todos(&store));
    assert_eq!(
        all,
        vec![item(1, "todo1", "description1"), item(2, "t", "d"), item(
            3,
            "todo3",
            "description3"
        )]
    );
}

#[test]
fn delete_then_get_is_not_found() {
    let mut store = seeded_store();
    let deleted = body_item(routes::delete_todo(&mut store, 2));
    assert_eq!(deleted, item(2, "todo2", "description2"));
    let response = routes::get_todo(&store, 2);
    assert_eq!(response.status, 404);
    assert_eq!(body_message(response), "Not Found");
    let remaining = body_items(routes::list_todos(&store));
    assert_eq!(
        remaining,
        vec![item(1, "todo1", "description1"), item(3, "todo3", "description3")]
    );
}

#[test]
fn scenario_seeded_store() {
    let store = seeded_store();
    let all = body_items(routes::list_todos(&store));
    assert_eq!(
        all,
        vec![
            item(1, "todo1", "description1"),
            item(2, "todo2", "description2"),
            item(3, "todo3", "description3"),
        ]
    );
    assert_eq!(body_item(routes::get_todo(&store, 2)), item(2, "todo2", "description2"));

    let mut updated_store = seeded_store();
    let updated = body_item(routes::update_todo(
        &mut updated_store,
        2,
        UpdateTodo { title: "title".to_string(), description: "description".to_string() },
    ));
    assert_eq!(updated, item(2, "title", "description"));

    let mut deleted_store = seeded_store();
    let deleted = body_item(routes::delete_todo(&mut deleted_store, 2));
    assert_eq!(deleted, item(2, "todo2", "description2"));
    assert_eq!(routes::get_todo(&deleted_store, 2).status, 404);
}

#[test]
fn storage_failure_maps_to_500() {
    let response = respond_to_outcome(StoreOutcome::Failure);
    assert_eq!(response.status, 500);
    assert_eq!(body_message(response), "Internal Server Error");
}

#[test]
fn found_outcome_maps_to_200() {
    let response = respond_to_outcome(StoreOutcome::Found(item(7, "t", "d")));
    assert_eq!(response.status, 200);
    assert_eq!(body_item(response), item(7, "t", "d"));
}

#[test]
fn absent_outcome_maps_to_404() {
    let response = respond_to_outcome(StoreOutcome::Absent);
    assert_eq!(response.status, 404);
    assert_eq!(body_message(response), "Not Found");
}
