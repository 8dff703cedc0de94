use workflow_backend::database::{DatabaseManager, FinalState, InitialState, Task};
use workflow_backend::error::WorkflowError;
use workflow_backend::record::{Stage, DATABASE_NONE_PLACER};

fn intake() -> InitialState {
    InitialState {
        location: "qiushi".to_string(),
        staff: "potato".to_string(),
        customer: "Y.S.".to_string(),
        initial_check: "1111".to_string(),
        remedy: "Change the CPU fan".to_string(),
        post: "202508121505".to_string(),
    }
}

fn completion() -> FinalState {
    FinalState {
        final_check: "1111".to_string(),
        additional: None,
        post: "202508121711".to_string(),
    }
}

#[test]
fn test_task() {
    let mut db = DatabaseManager::build((":memory:", ":memory:")).unwrap();
    let mut task = Task::build_new(&mut db).unwrap();
    assert_ne!(task.id, -1);
    assert!(task.location.is_none());
    task.update_at_initial(InitialState {
        location: "qiushi".to_string(),
        staff: "potato".to_string(),
        customer: "Y.S.".to_string(),
        initial_check: "1111".to_string(),
        remedy: "Change the CPU fan".to_string(),
        post: "202508121505".to_string(),
    })
    .unwrap();
    task.update_initial_confirm("202508121626".to_string())
        .unwrap();
    task.update_at_final(FinalState {
        final_check: "1111".to_string(),
        additional: None,
        post: "202508121711".to_string(),
    })
    .unwrap();
    task.update_final_confirm("202506121713".to_string())
        .unwrap();

    let ta = db.get_task_by_id(1).unwrap();
    assert_eq!(ta.id, 1);
    assert_eq!(ta.location.unwrap(), "qiushi");
}

#[test]
fn sequential_creates_count_up_by_one() {
    let mut db = DatabaseManager::build((":memory:", ":memory:")).unwrap();
    let first = Task::build_new(&mut db).unwrap().get_id();
    let second = Task::build_new(&mut db).unwrap().get_id();
    let third = Task::build_new(&mut db).unwrap().get_id();
    assert_eq!(first, 1);
    assert_eq!(second, first + 1);
    assert_eq!(third, second + 1);
}

#[test]
fn created_task_reads_back_with_every_field_absent() {
    let mut db = DatabaseManager::build((":memory:", ":memory:")).unwrap();
    let id = Task::build_new(&mut db).unwrap().get_id();
    let task = db.get_task_by_id(id).unwrap();
    assert_eq!(task.id, id);
    assert!(task.location.is_none());
    assert!(task.staff.is_none());
    assert!(task.customer.is_none());
    assert!(task.initial_post.is_none());
    assert!(task.initial_confirm.is_none());
    assert!(task.final_post.is_none());
    assert!(task.final_confirm.is_none());
    assert!(task.initial_check_state.is_none());
    assert!(task.remedy.is_none());
    assert!(task.final_check_state.is_none());
    assert!(task.additional.is_none());
    assert_eq!(task.stage(), Stage::Created);
    assert_eq!(task.get_initial_post(), DATABASE_NONE_PLACER);
}

#[test]
fn new_task_is_blank_with_id_zero() {
    let db = DatabaseManager::build((":memory:", ":memory:")).unwrap();
    let task = Task::new(&db);
    assert_eq!(task.get_id(), 0);
    assert!(task.location.is_none());
    assert!(task.additional.is_none());
    assert_eq!(task.basic_fields(), vec![None; 7]);
    assert_eq!(task.detail_fields(), vec![None; 4]);
}

#[test]
fn intake_reads_back_and_leaves_completion_absent() {
    let mut db = DatabaseManager::build((":memory:", ":memory:")).unwrap();
    let mut task = Task::build_new(&mut db).unwrap();
    let id = task.get_id();
    task.update_at_initial(intake()).unwrap();
    assert_eq!(task.get_initial_post(), "202508121505");
    let read = db.get_task_by_id(id).unwrap();
    assert_eq!(read.location.as_deref(), Some("qiushi"));
    assert_eq!(read.staff.as_deref(), Some("potato"));
    assert_eq!(read.customer.as_deref(), Some("Y.S."));
    assert_eq!(read.initial_check_state.as_deref(), Some("1111"));
    assert_eq!(read.remedy.as_deref(), Some("Change the CPU fan"));
    assert_eq!(read.initial_post.as_deref(), Some("202508121505"));
    assert!(read.initial_confirm.is_none());
    assert!(read.final_check_state.is_none());
    assert!(read.additional.is_none());
    assert!(read.final_post.is_none());
    assert!(read.final_confirm.is_none());
    assert_eq!(read.stage(), Stage::IntakePosted);
}

#[test]
fn whole_lifecycle_reads_back() {
    let mut db = DatabaseManager::build((":memory:", ":memory:")).unwrap();
    let mut task = Task::build_new(&mut db).unwrap();
    let id = task.get_id();
    assert_eq!(task.stage(), Stage::Created);
    task.update_at_initial(intake()).unwrap();
    assert_eq!(task.stage(), Stage::IntakePosted);
    task.update_initial_confirm("202508121626".to_string()).unwrap();
    assert_eq!(task.stage(), Stage::IntakeConfirmed);
    task.update_at_final(completion()).unwrap();
    assert_eq!(task.stage(), Stage::CompletionPosted);
    task.update_final_confirm("202508121713".to_string()).unwrap();
    assert_eq!(task.stage(), Stage::CompletionConfirmed);

    let read = db.get_task_by_id(id).unwrap();
    assert_eq!(read.id, id);
    assert_eq!(read.location.as_deref(), Some("qiushi"));
    assert_eq!(read.staff.as_deref(), Some("potato"));
    assert_eq!(read.customer.as_deref(), Some("Y.S."));
    assert_eq!(read.initial_check_state.as_deref(), Some("1111"));
    assert_eq!(read.remedy.as_deref(), Some("Change the CPU fan"));
    assert_eq!(read.initial_post.as_deref(), Some("202508121505"));
    assert_eq!(read.initial_confirm.as_deref(), Some("202508121626"));
    assert_eq!(read.final_check_state.as_deref(), Some("1111"));
    assert_eq!(read.final_post.as_deref(), Some("202508121711"));
    assert_eq!(read.final_confirm.as_deref(), Some("202508121713"));
    assert!(read.additional.is_none());
    assert_eq!(read.stage(), Stage::CompletionConfirmed);
}

#[test]
fn additional_note_is_kept_and_replaced() {
    let mut db = DatabaseManager::build((":memory:", ":memory:")).unwrap();
    let mut task = Task::build_new(&mut db).unwrap();
    let id = task.get_id();
    task.update_at_initial(intake()).unwrap();
    task.update_at_final(FinalState {
        final_check: "1101".to_string(),
        additional: Some("touchpad still dead".to_string()),
        post: "202508121711".to_string(),
    })
    .unwrap();
    let read = db.get_task_by_id(id).unwrap();
    assert_eq!(read.additional.as_deref(), Some("touchpad still dead"));
    assert_eq!(read.final_check_state.as_deref(), Some("1101"));

    let mut again = db.get_task_by_id(id).unwrap();
    again.update_at_final(completion()).unwrap();
    let read = db.get_task_by_id(id).unwrap();
    assert!(read.additional.is_none());
    assert_eq!(read.location.as_deref(), Some("qiushi"));
}

#[test]
fn empty_text_is_a_value_and_not_absent() {
    let mut db = DatabaseManager::build((":memory:", ":memory:")).unwrap();
    let mut task = Task::build_new(&mut db).unwrap();
    let id = task.get_id();
    let mut report = intake();
    report.remedy = String::new();
    task.update_at_initial(report).unwrap();
    let read = db.get_task_by_id(id).unwrap();
    assert_eq!(read.remedy.as_deref(), Some(""));
}

#[test]
fn unknown_id_is_not_found() {
    let db = DatabaseManager::build((":memory:", ":memory:")).unwrap();
    assert_eq!(db.get_task_by_id(41).err(), Some(WorkflowError::RecordNotFound));
}

#[test]
fn update_of_a_task_without_row_is_not_found() {
    let db = DatabaseManager::build((":memory:", ":memory:")).unwrap();
    let mut task = Task::new(&db);
    task.id = 9;
    assert_eq!(
        task.update_initial_confirm("202508121626".to_string()),
        Err(WorkflowError::RecordNotFound)
    );
    assert_eq!(task.initial_confirm.as_deref(), Some("202508121626"));
    assert_eq!(db.get_task_by_id(9).err(), Some(WorkflowError::RecordNotFound));
}

#[test]
fn reserved_text_is_refused_before_anything_changes() {
    let mut db = DatabaseManager::build((":memory:", ":memory:")).unwrap();
    let mut task = Task::build_new(&mut db).unwrap();
    let id = task.get_id();
    let mut report = intake();
    report.customer = DATABASE_NONE_PLACER.to_string();
    assert_eq!(task.update_at_initial(report), Err(WorkflowError::MalformedInput));
    assert!(task.location.is_none());
    assert_eq!(
        task.update_initial_confirm(DATABASE_NONE_PLACER.to_string()),
        Err(WorkflowError::MalformedInput)
    );
    assert!(task.initial_confirm.is_none());
    let mut done = completion();
    done.additional = Some(DATABASE_NONE_PLACER.to_string());
    assert_eq!(task.update_at_final(done), Err(WorkflowError::MalformedInput));
    assert!(task.final_post.is_none());
    let mut done = completion();
    done.post = DATABASE_NONE_PLACER.to_string();
    assert_eq!(task.update_at_final(done), Err(WorkflowError::MalformedInput));
    assert_eq!(
        task.update_final_confirm(DATABASE_NONE_PLACER.to_string()),
        Err(WorkflowError::MalformedInput)
    );
    assert!(task.final_confirm.is_none());
    let read = db.get_task_by_id(id).unwrap();
    assert!(read.location.is_none());
    assert!(read.final_confirm.is_none());
}

#[test]
fn completeness_of_reports() {
    assert!(intake().is_complete());
    assert!(completion().is_complete());
    let mut report = intake();
    report.post = DATABASE_NONE_PLACER.to_string();
    assert!(!report.is_complete());
    let mut done = completion();
    done.final_check = DATABASE_NONE_PLACER.to_string();
    assert!(!done.is_complete());
    let mut done = completion();
    done.additional = Some(String::new());
    assert!(done.is_complete());
}

#[test]
fn unknown_version_is_stored_as_it_is() {
    let mut db = DatabaseManager::build((":memory:", ":memory:")).unwrap();
    let mut task = Task::build_new(&mut db).unwrap();
    let id = task.get_id();
    let mut report = intake();
    report.initial_check = "9111".to_string();
    task.update_at_initial(report).unwrap();
    let read = db.get_task_by_id(id).unwrap();
    assert_eq!(read.initial_check_state.as_deref(), Some("9111"));
    assert_eq!(
        workflow_backend::check_state::inspect(read.initial_check_state.as_deref().unwrap()),
        None
    );
}

#[test]
fn storage_failure_on_open() {
    let built = DatabaseManager::build(("/no/such/directory/basic.db", ":memory:"));
    assert_eq!(built.err(), Some(WorkflowError::StorageUnavailable));
    let built = DatabaseManager::build((":memory:", "/no/such/directory/detail.db"));
    assert_eq!(built.err(), Some(WorkflowError::StorageUnavailable));
}

#[test]
fn task_is_assembled_from_the_rows_of_both_stores() {
    let db = DatabaseManager::build((":memory:", ":memory:")).unwrap();
    let basic = vec![
        Some("qiushi".to_string()),
        Some("potato".to_string()),
        Some("Y.S.".to_string()),
        Some("202508121505".to_string()),
        None,
        None,
        None,
    ];
    let detail = vec![
        Some("1111".to_string()),
        Some("Change the CPU fan".to_string()),
        None,
        None,
    ];
    let task = Task::from_fields(&db, 12, &basic, &detail).ok().unwrap();
    assert_eq!(task.id, 12);
    assert_eq!(task.location.as_deref(), Some("qiushi"));
    assert_eq!(task.staff.as_deref(), Some("potato"));
    assert_eq!(task.customer.as_deref(), Some("Y.S."));
    assert_eq!(task.initial_post.as_deref(), Some("202508121505"));
    assert!(task.initial_confirm.is_none());
    assert_eq!(task.initial_check_state.as_deref(), Some("1111"));
    assert_eq!(task.remedy.as_deref(), Some("Change the CPU fan"));
    assert!(task.final_check_state.is_none());
    assert_eq!(task.basic_fields(), basic);
    assert_eq!(task.detail_fields(), detail);
    assert_eq!(
        Task::from_fields(&db, 12, &detail, &basic).err(),
        Some(WorkflowError::MalformedInput)
    );
    assert_eq!(
        Task::from_fields(&db, 12, &basic, &Vec::new()).err(),
        Some(WorkflowError::MalformedInput)
    );
}

#[test]
fn step_through_an_old_copy_keeps_what_others_recorded() {
    let mut db = DatabaseManager::build((":memory:", ":memory:")).unwrap();
    let id = Task::build_new(&mut db).unwrap().get_id();
    let mut old = db.get_task_by_id(id).unwrap();
    old.update_at_initial(intake()).unwrap();
    let mut other = db.get_task_by_id(id).unwrap();
    other.update_initial_confirm("202508121626".to_string()).unwrap();
    assert!(old.initial_confirm.is_none());
    old.update_at_final(completion()).unwrap();
    let read = db.get_task_by_id(id).unwrap();
    assert_eq!(read.initial_confirm.as_deref(), Some("202508121626"));
    assert_eq!(read.location.as_deref(), Some("qiushi"));
    assert_eq!(read.final_post.as_deref(), Some("202508121711"));
    assert_eq!(read.final_check_state.as_deref(), Some("1111"));
    assert!(read.additional.is_none());
    assert!(read.final_confirm.is_none());

    let mut blank = Task::new(&db);
    blank.id = id;
    blank.update_final_confirm("202508121713".to_string()).unwrap();
    let read = db.get_task_by_id(id).unwrap();
    assert_eq!(read.final_confirm.as_deref(), Some("202508121713"));
    assert_eq!(read.staff.as_deref(), Some("potato"));
    assert_eq!(read.customer.as_deref(), Some("Y.S."));
    assert_eq!(read.remedy.as_deref(), Some("Change the CPU fan"));
    assert_eq!(read.initial_post.as_deref(), Some("202508121505"));
    assert_eq!(read.initial_confirm.as_deref(), Some("202508121626"));
    assert_eq!(read.final_post.as_deref(), Some("202508121711"));
}

#[test]
fn reserved_text_in_another_field_is_never_written() {
    let mut db = DatabaseManager::build((":memory:", ":memory:")).unwrap();
    let id = Task::build_new(&mut db).unwrap().get_id();
    let mut task = db.get_task_by_id(id).unwrap();
    task.update_at_initial(intake()).unwrap();
    let mut odd = db.get_task_by_id(id).unwrap();
    odd.location = Some(DATABASE_NONE_PLACER.to_string());
    odd.update_initial_confirm("202508121626".to_string()).unwrap();
    let read = db.get_task_by_id(id).unwrap();
    assert_eq!(read.location.as_deref(), Some("qiushi"));
    assert_eq!(read.initial_confirm.as_deref(), Some("202508121626"));
}
