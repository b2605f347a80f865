use rust_api::dto::{failure_status, CreateTaskDto, CreateTaskSchema, UpdateTaskDto};
use rust_api::memory::InMemoryTaskRepository;
use rust_api::repository::{RepoError, TaskRepository};
use rust_api::service::TaskService;
use rust_api::store::{classify, settle_insert, settle_row, settle_rows, StoreFailure};
use rust_api::task::Task;

fn service() -> TaskService<InMemoryTaskRepository> {
    TaskService::new(InMemoryTaskRepository::new())
}

fn task(id: u128, title: &str, content: &str, created_at: i64) -> Task {
    Task { id, title: title.to_string(), content: content.to_string(), created_at }
}

#[test]
fn test_create_task_service() {
    let mut task_service = service();
    let title = "Test Task".to_string();
    let content = "This is a test task.".to_string();
    let result = task_service.create_task(title.clone(), content.clone());
    assert!(result.is_ok());
    let task = result.unwrap();
    assert_eq!(task.title, title);
    assert_eq!(task.content, content);
}

#[test]
fn test_get_tasks_service() {
    let task_service = service();
    let result = task_service.get_tasks();
    assert!(result.is_ok());
    let tasks = result.unwrap();
    assert!(tasks.is_empty());
}

#[test]
fn test_delete_task_service() {
    let mut task_service = service();
    let id = task_service.create_task("deleted".to_string(), "deleted".to_string()).unwrap().id;
    let result = task_service.delete_task(id);
    assert!(result.is_ok());
    let task = result.unwrap();
    assert_eq!(task.id, id);
    assert_eq!(task.title, "deleted");
    assert_eq!(task.content, "deleted");
}

#[test]
fn test_update_task_service() {
    let mut task_service = service();
    let id = task_service.create_task("A".to_string(), "B".to_string()).unwrap().id;
    let new_title = Some("Updated Title".to_string());
    let new_content = Some("Updated Content".to_string());
    let result = task_service.update_task(id, new_title.clone(), new_content.clone());
    assert!(result.is_ok());
    let task = result.unwrap();
    assert_eq!(task.id, id);
    assert_eq!(task.title, new_title.unwrap());
    assert_eq!(task.content, new_content.unwrap());
}

#[test]
fn create_then_list_holds_one_task() {
    let mut task_service = service();
    let task = task_service
        .create_task("Test Task".to_string(), "This is a test task.".to_string())
        .unwrap();
    assert_eq!(task.title, "Test Task");
    assert_eq!(task.content, "This is a test task.");
    assert!(task.created_at > 0);
    let tasks = task_service.get_tasks().unwrap();
    assert_eq!(tasks.len(), 1);
    assert_eq!(tasks[0].id, task.id);
    assert_eq!(tasks[0].title, "Test Task");
    assert_eq!(tasks[0].content, "This is a test task.");
    assert_eq!(tasks[0].created_at, task.created_at);
}

#[test]
fn created_ids_are_distinct() {
    let mut repo = InMemoryTaskRepository::new();
    let a = repo.create("same".to_string(), "same".to_string()).unwrap();
    let b = repo.create("same".to_string(), "same".to_string()).unwrap();
    assert_ne!(a.id, b.id);
    let all = repo.get_all().unwrap();
    assert_eq!(all.len(), 2);
    assert_eq!(all.iter().filter(|t| t.id == a.id).count(), 1);
    assert_eq!(all.iter().filter(|t| t.id == b.id).count(), 1);
}

#[test]
fn update_title_only_keeps_content() {
    let mut repo = InMemoryTaskRepository::new();
    let t = repo.create("A".to_string(), "B".to_string()).unwrap();
    let u = repo.update(t.id, Some("C".to_string()), None).unwrap();
    assert_eq!(u.id, t.id);
    assert_eq!(u.title, "C");
    assert_eq!(u.content, "B");
    assert_eq!(u.created_at, t.created_at);
}

#[test]
fn update_with_nothing_changes_nothing() {
    let mut repo = InMemoryTaskRepository::new();
    let t = repo.create("A".to_string(), "B".to_string()).unwrap();
    let u = repo.update(t.id, None, None).unwrap();
    assert_eq!(u.title, "A");
    assert_eq!(u.content, "B");
    assert_eq!(u.created_at, t.created_at);
    let all = repo.get_all().unwrap();
    assert_eq!(all.len(), 1);
    assert_eq!(all[0].title, "A");
    assert_eq!(all[0].content, "B");
}

#[test]
fn update_to_empty_text_replaces() {
    let mut repo = InMemoryTaskRepository::new();
    let t = repo.create("A".to_string(), "B".to_string()).unwrap();
    let u = repo.update(t.id, None, Some(String::new())).unwrap();
    assert_eq!(u.title, "A");
    assert_eq!(u.content, "");
}

#[test]
fn missing_id_is_not_found() {
    let mut repo = InMemoryTaskRepository::new();
    let t = repo.create("A".to_string(), "B".to_string()).unwrap();
    let unused = t.id ^ 1;
    assert!(matches!(repo.update(unused, Some("x".to_string()), None), Err(RepoError::NotFound)));
    assert!(matches!(repo.delete(unused), Err(RepoError::NotFound)));
    assert_eq!(repo.get_all().unwrap().len(), 1);
}

#[test]
fn deleted_task_leaves_listing() {
    let mut task_service = service();
    let a = task_service.create_task("a".to_string(), "1".to_string()).unwrap();
    let b = task_service.create_task("b".to_string(), "2".to_string()).unwrap();
    let gone = task_service.delete_task(a.id).unwrap();
    assert_eq!(gone.title, "a");
    let tasks = task_service.get_tasks().unwrap();
    assert_eq!(tasks.len(), 1);
    assert_eq!(tasks[0].id, b.id);
    assert!(matches!(task_service.delete_task(a.id), Err(RepoError::NotFound)));
}

#[test]
fn created_at_is_kept_through_updates() {
    let mut repo = InMemoryTaskRepository::new();
    let t = repo.insert_new(7, 1_700_000_000_000_000, "A".to_string(), "B".to_string()).unwrap();
    assert_eq!(t.created_at, 1_700_000_000_000_000);
    let u = repo.update(7, Some("C".to_string()), Some("D".to_string())).unwrap();
    assert_eq!(u.created_at, 1_700_000_000_000_000);
    let v = repo.update(7, None, Some("E".to_string())).unwrap();
    assert_eq!(v.created_at, 1_700_000_000_000_000);
    assert_eq!(v.title, "C");
    assert_eq!(v.content, "E");
}

#[test]
fn empty_store_lists_nothing() {
    let repo = InMemoryTaskRepository::new();
    assert!(repo.get_all().unwrap().is_empty());
    assert!(TaskRepository::get_all(&repo).unwrap().is_empty());
}

#[test]
fn insert_under_taken_id_conflicts() {
    let mut repo = InMemoryTaskRepository::new();
    let t = repo.insert_new(42, 5, "A".to_string(), "B".to_string()).unwrap();
    assert_eq!(t.id, 42);
    assert_eq!(t.created_at, 5);
    assert!(matches!(repo.insert_new(42, 6, "C".to_string(), "D".to_string()), Err(RepoError::Conflict)));
    let all = repo.get_all().unwrap();
    assert_eq!(all.len(), 1);
    assert_eq!(all[0].title, "A");
    assert_eq!(all[0].created_at, 5);
}

#[test]
fn listing_keeps_creation_order() {
    let mut repo = InMemoryTaskRepository::new();
    repo.insert_new(3, 30, "c".to_string(), "".to_string()).unwrap();
    repo.insert_new(1, 10, "a".to_string(), "".to_string()).unwrap();
    repo.insert_new(2, 20, "b".to_string(), "".to_string()).unwrap();
    repo.delete(1).unwrap();
    let ids: Vec<u128> = repo.get_all().unwrap().iter().map(|t| t.id).collect();
    assert_eq!(ids, vec![3, 2]);
}

#[test]
fn store_outcomes_are_classified() {
    let row = task(9, "t", "c", 1);
    let got = settle_row(Ok(Some(row))).unwrap();
    assert_eq!(got.id, 9);
    assert_eq!(got.title, "t");
    assert!(matches!(settle_row(Ok(None)), Err(RepoError::NotFound)));
    assert!(matches!(settle_row(Err(StoreFailure::Other)), Err(RepoError::PersistenceUnavailable)));
    assert!(matches!(settle_row(Err(StoreFailure::UniqueViolation)), Err(RepoError::Conflict)));
    assert_eq!(classify(StoreFailure::NoRow), RepoError::NotFound);
    let rows = settle_rows(Ok(vec![task(1, "a", "b", 2), task(2, "c", "d", 3)])).unwrap();
    assert_eq!(rows.len(), 2);
    assert_eq!(rows[1].content, "d");
    assert!(matches!(settle_rows(Err(StoreFailure::Other)), Err(RepoError::PersistenceUnavailable)));
}

#[test]
fn failures_map_to_statuses() {
    assert_eq!(failure_status(RepoError::NotFound), 404);
    assert_eq!(failure_status(RepoError::Conflict), 409);
    assert_eq!(failure_status(RepoError::PersistenceUnavailable), 500);
}

#[test]
fn request_bodies_carry_fields() {
    let c = CreateTaskDto { title: "t".to_string(), content: "c".to_string() };
    let s = CreateTaskSchema { title: c.title.clone(), content: c.content.clone() };
    let u = UpdateTaskDto { title: None, content: Some(String::new()) };
    let mut repo = InMemoryTaskRepository::new();
    let t = repo.create(s.title, s.content).unwrap();
    let v = repo.update(t.id, u.title, u.content).unwrap();
    assert_eq!(v.title, "t");
    assert_eq!(v.content, "");
}

#[test]
fn deleted_id_is_never_reused() {
    let mut repo = InMemoryTaskRepository::new();
    repo.insert_new(11, 1, "A".to_string(), "B".to_string()).unwrap();
    repo.delete(11).unwrap();
    assert!(repo.get_all().unwrap().is_empty());
    assert!(matches!(repo.insert_new(11, 2, "C".to_string(), "D".to_string()), Err(RepoError::Conflict)));
    assert!(repo.get_all().unwrap().is_empty());
    assert!(repo.insert_new(12, 3, "C".to_string(), "D".to_string()).is_ok());
}

#[test]
fn insert_outcomes_are_never_not_found() {
    let got = settle_insert(Ok(Some(task(5, "t", "c", 9)))).unwrap();
    assert_eq!(got.id, 5);
    assert_eq!(got.created_at, 9);
    assert!(matches!(settle_insert(Ok(None)), Err(RepoError::PersistenceUnavailable)));
    assert!(matches!(settle_insert(Err(StoreFailure::NoRow)), Err(RepoError::PersistenceUnavailable)));
    assert!(matches!(settle_insert(Err(StoreFailure::UniqueViolation)), Err(RepoError::Conflict)));
    assert!(matches!(settle_insert(Err(StoreFailure::Other)), Err(RepoError::PersistenceUnavailable)));
}

#[test]
fn first_create_on_fresh_store_succeeds_with_clock_time() {
    let mut repo = InMemoryTaskRepository::new();
    let t = repo.create(String::new(), String::new()).unwrap();
    assert!(t.created_at > 1_600_000_000_000_000);
    assert_eq!(t.title, "");
    let u = repo.update(t.id, None, None).unwrap();
    assert_eq!(u.id, t.id);
    assert_eq!(u.created_at, t.created_at);
}

#[test]
fn service_reports_not_found_after_delete() {
    let mut task_service = service();
    let t = task_service.create_task("A".to_string(), "B".to_string()).unwrap();
    let u = task_service.update_task(t.id, Some("C".to_string()), None).unwrap();
    assert_eq!(u.title, "C");
    assert_eq!(u.content, "B");
    task_service.delete_task(t.id).unwrap();
    assert!(matches!(task_service.update_task(t.id, None, None), Err(RepoError::NotFound)));
    assert!(matches!(task_service.delete_task(t.id), Err(RepoError::NotFound)));
    assert!(task_service.get_tasks().unwrap().is_empty());
}
