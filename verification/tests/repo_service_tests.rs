use todo_api::memory_repo::InMemoryRepo;
use todo_api::repository::TodoRepository;
use todo_api::service::{TodoService, TodoServiceImpl};
use todo_api::todo::{CreateTodo, TodoId, TodoStatus, UpdateTodo};

fn no_change() -> UpdateTodo {
    UpdateTodo { title: None, description: None, status: None }
}

#[test]
fn unit_create_and_get() {
    let repo = InMemoryRepo::new();
    let mut service = TodoServiceImpl::new(repo);
    let created = service
        .create(CreateTodo { title: "X".to_string(), description: None })
        .unwrap();
    assert_eq!(created.title, "X");
    let got = service.get(created.id).unwrap().unwrap();
    assert_eq!(got.id, created.id);
}

#[test]
fn acceptance_create_list_get_update_delete() {
    let mut repo = InMemoryRepo::new();
    repo.init().unwrap();
    let mut service = TodoServiceImpl::new(repo);

    // create
    let created = service
        .create(CreateTodo {
            title: "Test".to_string(),
            description: Some("First".to_string()),
        })
        .unwrap();
    assert_eq!(created.title, "Test");
    assert_eq!(created.description.as_deref(), Some("First"));
    assert_eq!(created.status, TodoStatus::Pending);
    assert_eq!(created.created_at, created.updated_at);
    let id = created.id;

    // list
    let listed = service.list().unwrap();
    assert!(listed.iter().any(|t| t.id == id));

    // get
    let got = service.get(id).unwrap().unwrap();
    assert_eq!(got.title, "Test");

    // update
    let updated = service
        .update(
            id,
            UpdateTodo { title: None, description: None, status: Some(TodoStatus::Done) },
        )
        .unwrap()
        .unwrap();
    assert_eq!(updated.status, TodoStatus::Done);
    assert_eq!(updated.title, "Test");

    // delete
    assert!(service.delete(id).unwrap());

    // get reports absence
    assert!(service.get(id).unwrap().is_none());
}

#[test]
fn create_then_get_returns_created_todo() {
    let mut repo = InMemoryRepo::new();
    let id = TodoId(7);
    let t = repo
        .create_with(
            CreateTodo { title: "walk".to_string(), description: Some("the dog".to_string()) },
            id,
            1000,
        )
        .unwrap();
    assert_eq!(t.id, id);
    assert_eq!(t.status, TodoStatus::Pending);
    assert_eq!(t.created_at, 1000);
    assert_eq!(t.updated_at, 1000);
    let got = repo.get(id).unwrap().unwrap();
    assert_eq!(got.title, "walk");
    assert_eq!(got.description.as_deref(), Some("the dog"));
    assert_eq!(got.created_at, 1000);
}

#[test]
fn absent_id_reports_absence_everywhere() {
    let mut repo = InMemoryRepo::new();
    repo.create_with(CreateTodo { title: "a".to_string(), description: None }, TodoId(1), 10)
        .unwrap();
    let missing = TodoId(99);
    assert!(repo.get(missing).unwrap().is_none());
    assert!(repo.update_with(missing, no_change(), 20).is_none());
    assert!(!repo.delete(missing).unwrap());
    // the present todo was not disturbed
    let got = repo.get(TodoId(1)).unwrap().unwrap();
    assert_eq!(got.title, "a");
    assert_eq!(got.updated_at, 10);
}

#[test]
fn init_twice_leaves_state_unchanged() {
    let mut repo = InMemoryRepo::new();
    repo.init().unwrap();
    repo.create_with(CreateTodo { title: "a".to_string(), description: None }, TodoId(1), 10)
        .unwrap();
    let once: Vec<_> = repo.list().unwrap().iter().map(|t| t.id).collect();
    repo.init().unwrap();
    repo.init().unwrap();
    let thrice: Vec<_> = repo.list().unwrap().iter().map(|t| t.id).collect();
    assert_eq!(once, thrice);
    assert_eq!(repo.list().unwrap().len(), 1);
}

#[test]
fn empty_update_refreshes_timestamp_only() {
    let mut repo = InMemoryRepo::new();
    repo.create_with(
        CreateTodo { title: "a".to_string(), description: Some("d".to_string()) },
        TodoId(1),
        10,
    )
    .unwrap();
    let updated = repo.update_with(TodoId(1), no_change(), 55).unwrap();
    assert_eq!(updated.title, "a");
    assert_eq!(updated.description.as_deref(), Some("d"));
    assert_eq!(updated.status, TodoStatus::Pending);
    assert_eq!(updated.created_at, 10);
    assert_eq!(updated.updated_at, 55);
}

#[test]
fn update_overlays_present_fields() {
    let mut repo = InMemoryRepo::new();
    repo.create_with(
        CreateTodo { title: "a".to_string(), description: Some("d".to_string()) },
        TodoId(1),
        10,
    )
    .unwrap();
    let updated = repo
        .update_with(
            TodoId(1),
            UpdateTodo {
                title: Some("b".to_string()),
                description: Some("".to_string()),
                status: Some(TodoStatus::Done),
            },
            20,
        )
        .unwrap();
    assert_eq!(updated.title, "b");
    assert_eq!(updated.description.as_deref(), Some(""));
    assert_eq!(updated.status, TodoStatus::Done);
    assert_eq!(updated.created_at, 10);
    assert_eq!(updated.updated_at, 20);
}

#[test]
fn delete_then_get_reports_absence() {
    let mut repo = InMemoryRepo::new();
    repo.create_with(CreateTodo { title: "a".to_string(), description: None }, TodoId(1), 10)
        .unwrap();
    assert!(repo.delete(TodoId(1)).unwrap());
    assert!(repo.get(TodoId(1)).unwrap().is_none());
    assert!(!repo.delete(TodoId(1)).unwrap());
}

#[test]
fn list_orders_newest_first() {
    let mut repo = InMemoryRepo::new();
    repo.create_with(CreateTodo { title: "t1".to_string(), description: None }, TodoId(1), 100)
        .unwrap();
    repo.create_with(CreateTodo { title: "t2".to_string(), description: None }, TodoId(2), 200)
        .unwrap();
    repo.create_with(CreateTodo { title: "t3".to_string(), description: None }, TodoId(3), 300)
        .unwrap();
    let listed = repo.list().unwrap();
    let titles: Vec<&str> = listed.iter().map(|t| t.title.as_str()).collect();
    assert_eq!(titles, vec!["t3", "t2", "t1"]);
    assert!(listed[0].created_at >= listed[1].created_at);
    assert!(listed[1].created_at >= listed[2].created_at);
}

#[test]
fn create_with_taken_id_is_a_storage_error() {
    let mut repo = InMemoryRepo::new();
    repo.create_with(CreateTodo { title: "a".to_string(), description: None }, TodoId(1), 10)
        .unwrap();
    let second = repo.create_with(
        CreateTodo { title: "b".to_string(), description: None },
        TodoId(1),
        20,
    );
    assert!(second.is_err());
    // and the state is unchanged
    assert_eq!(repo.list().unwrap().len(), 1);
    assert_eq!(repo.get(TodoId(1)).unwrap().unwrap().title, "a");
}

#[test]
fn generated_ids_differ() {
    let repo = InMemoryRepo::new();
    let mut service = TodoServiceImpl::new(repo);
    let a = service
        .create(CreateTodo { title: "a".to_string(), description: None })
        .unwrap();
    let b = service
        .create(CreateTodo { title: "b".to_string(), description: None })
        .unwrap();
    assert_ne!(a.id, b.id);
    assert_ne!(TodoId::default(), TodoId::default());
}

#[test]
fn service_update_of_absent_id_is_ok_none() {
    let repo = InMemoryRepo::new();
    let mut service = TodoServiceImpl::new(repo);
    let r = service.update(TodoId(42), no_change()).unwrap();
    assert!(r.is_none());
    assert!(!service.delete(TodoId(42)).unwrap());
    assert!(service.get(TodoId(42)).unwrap().is_none());
}

#[test]
fn creation_time_never_runs_backwards() {
    let mut repo = InMemoryRepo::new();
    repo.create_with(CreateTodo { title: "first".to_string(), description: None }, TodoId(1), 100)
        .unwrap();
    // a clock reading earlier than the newest todo is raised to it, so the
    // newest-first order of the list is also the timestamp order
    let t = repo
        .create_with(CreateTodo { title: "second".to_string(), description: None }, TodoId(2), 50)
        .unwrap();
    assert_eq!(t.created_at, 100);
    let titles: Vec<String> = repo.list().unwrap().iter().map(|t| t.title.clone()).collect();
    assert_eq!(titles, vec!["second".to_string(), "first".to_string()]);
}

#[test]
fn update_time_never_precedes_creation() {
    let mut repo = InMemoryRepo::new();
    repo.create_with(CreateTodo { title: "a".to_string(), description: None }, TodoId(1), 100)
        .unwrap();
    let updated = repo.update_with(TodoId(1), no_change(), 40).unwrap();
    assert_eq!(updated.updated_at, 100);
    assert!(updated.updated_at >= updated.created_at);
}
