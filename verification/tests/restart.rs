use workflow_backend::database::{DatabaseManager, Task};
use workflow_backend::error::WorkflowError;

const CREATE_BASIC: &str = "create table clinic_task(
    id integer primary key,
    location text,
    staff text,
    customer text,
    initial_post text,
    initial_confirm text,
    final_post text,
    final_confirm text
)";

const CREATE_DETAIL: &str = "create table clinic_task(
    id integer primary key,
    initial_check_state text,
    remedy text,
    final_check_state text,
    additional text
)";

fn seeded(uri: &str, schema: &str, ids: &[i32]) -> rusqlite::Connection {
    let connection = rusqlite::Connection::open(uri).unwrap();
    connection.execute(schema, []).unwrap();
    for id in ids {
        connection
            .execute("insert into clinic_task (id) values (?1)", [*id])
            .unwrap();
    }
    connection
}

#[test]
fn restart_continues_after_the_largest_id() {
    let basic = "file:restart_basic?mode=memory&cache=shared";
    let detail = "file:restart_detail?mode=memory&cache=shared";
    let _keep_basic = seeded(basic, CREATE_BASIC, &[1, 2, 5]);
    let _keep_detail = seeded(detail, CREATE_DETAIL, &[1, 2, 5]);
    let mut db = DatabaseManager::build((basic, detail)).unwrap();
    let task = Task::build_new(&mut db).unwrap();
    assert_eq!(task.get_id(), 6);
    let next = Task::build_new(&mut db).unwrap();
    assert_eq!(next.get_id(), 7);
}

#[test]
fn restart_reads_rows_that_were_there() {
    let basic = "file:reads_basic?mode=memory&cache=shared";
    let detail = "file:reads_detail?mode=memory&cache=shared";
    let keep_basic = seeded(basic, CREATE_BASIC, &[3]);
    let keep_detail = seeded(detail, CREATE_DETAIL, &[3]);
    keep_basic
        .execute("update clinic_task set location = 'bench', staff = '<absent>' where id = 3", [])
        .unwrap();
    keep_detail
        .execute("update clinic_task set remedy = 'new fan' where id = 3", [])
        .unwrap();
    let db = DatabaseManager::build((basic, detail)).unwrap();
    let task = db.get_task_by_id(3).unwrap();
    assert_eq!(task.location.as_deref(), Some("bench"));
    assert!(task.staff.is_none());
    assert!(task.customer.is_none());
    assert_eq!(task.remedy.as_deref(), Some("new fan"));
    assert!(task.additional.is_none());
}

#[test]
fn empty_store_starts_at_one() {
    let mut db = DatabaseManager::build((":memory:", ":memory:")).unwrap();
    assert_eq!(Task::build_new(&mut db).unwrap().get_id(), 1);
}

#[test]
fn row_in_one_store_only_is_not_found() {
    let basic = "file:half_basic?mode=memory&cache=shared";
    let detail = "file:half_detail?mode=memory&cache=shared";
    let _keep_basic = seeded(basic, CREATE_BASIC, &[4]);
    let _keep_detail = seeded(detail, CREATE_DETAIL, &[]);
    let db = DatabaseManager::build((basic, detail)).unwrap();
    assert_eq!(db.get_task_by_id(4).err(), Some(WorkflowError::RecordNotFound));
}

#[test]
fn id_that_a_store_already_holds_is_a_duplicate() {
    let basic = "file:duplicate_basic?mode=memory&cache=shared";
    let detail = "file:duplicate_detail?mode=memory&cache=shared";
    let _keep_basic = seeded(basic, CREATE_BASIC, &[]);
    let _keep_detail = seeded(detail, CREATE_DETAIL, &[1]);
    let mut db = DatabaseManager::build((basic, detail)).unwrap();
    assert_eq!(
        Task::build_new(&mut db).err(),
        Some(WorkflowError::DuplicateIdentity)
    );
    let second = Task::build_new(&mut db).unwrap();
    assert_eq!(second.get_id(), 2);
}

#[test]
fn allocator_at_its_limit_issues_nothing() {
    let basic = "file:limit_basic?mode=memory&cache=shared";
    let detail = "file:limit_detail?mode=memory&cache=shared";
    let _keep_basic = seeded(basic, CREATE_BASIC, &[i32::MAX]);
    let _keep_detail = seeded(detail, CREATE_DETAIL, &[]);
    let mut db = DatabaseManager::build((basic, detail)).unwrap();
    assert_eq!(
        Task::build_new(&mut db).err(),
        Some(WorkflowError::IdentityExhausted)
    );
    assert_eq!(
        Task::build_new(&mut db).err(),
        Some(WorkflowError::IdentityExhausted)
    );
}

#[test]
fn table_of_another_shape_is_a_storage_failure() {
    let basic = "file:shape_basic?mode=memory&cache=shared";
    let detail = "file:shape_detail?mode=memory&cache=shared";
    let _keep_basic = seeded(basic, "create table clinic_task(id integer primary key)", &[1]);
    let _keep_detail = seeded(detail, CREATE_DETAIL, &[1]);
    let db = DatabaseManager::build((basic, detail)).unwrap();
    assert_eq!(
        db.get_task_by_id(1).err(),
        Some(WorkflowError::StorageUnavailable)
    );
}
