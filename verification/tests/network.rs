use std::collections::hash_map::DefaultHasher;
use std::hash::{Hash, Hasher};
use workflow_backend::database::{DatabaseManager, FinalState, InitialState, Task};
use workflow_backend::error::WorkflowError;
use workflow_backend::link::task_id_of_path;
use workflow_backend::network::{
    completion_link, customer_uri, initial_links, make_final_confirm, make_initial_confirm,
    post_final_state, post_initial_state, staff_uri, uri_generator,
};
use workflow_backend::record::DATABASE_NONE_PLACER;

fn report() -> InitialState {
    InitialState {
        location: "qiushi".to_string(),
        staff: "potato".to_string(),
        customer: "Y.S.".to_string(),
        initial_check: "1111".to_string(),
        remedy: "Change the CPU fan".to_string(),
        post: "202508121505".to_string(),
    }
}

fn finished() -> FinalState {
    FinalState {
        final_check: "1111".to_string(),
        additional: None,
        post: "202508121711".to_string(),
    }
}

fn hashed(a: i32, b: usize, c: &str) -> String {
    let mut hasher = DefaultHasher::new();
    a.hash(&mut hasher);
    b.hash(&mut hasher);
    c.hash(&mut hasher);
    format!("{:x}", hasher.finish())
}

#[test]
fn token_is_the_same_for_the_same_inputs() {
    let first = uri_generator(7, 0, "202508121505");
    let second = uri_generator(7, 0, "202508121505");
    assert_eq!(first, second);
}

#[test]
fn token_differs_between_the_stages() {
    assert_ne!(
        uri_generator(7, 0, "202508121505"),
        uri_generator(7, 1, "202508121505")
    );
}

#[test]
fn token_depends_on_each_input() {
    let token = uri_generator(7, 0, "202508121505");
    assert_ne!(token, uri_generator(8, 0, "202508121505"));
    assert_ne!(token, uri_generator(7, 0, "202508121506"));
    assert_ne!(token, uri_generator(7, 0, ""));
}

#[test]
fn token_is_the_hex_digest_of_the_default_hasher() {
    assert_eq!(uri_generator(7, 0, "202508121505"), hashed(7, 0, "202508121505"));
    assert_eq!(uri_generator(7, 1, "202508121505"), hashed(7, 1, "202508121505"));
    assert_eq!(uri_generator(-3, 1, ""), hashed(-3, 1, ""));
    assert_eq!(uri_generator(i32::MAX, 0, "<absent>"), hashed(i32::MAX, 0, "<absent>"));
}

#[test]
fn token_is_lower_case_hex_without_prefix() {
    let token = uri_generator(7, 0, "202508121505");
    assert!(!token.is_empty());
    assert!(token.len() <= 16);
    assert!(token
        .chars()
        .all(|c| c.is_ascii_digit() || ('a'..='f').contains(&c)));
}

#[test]
fn links_have_the_documented_shape() {
    assert_eq!(customer_uri("initial", 7, "ab12"), "/customer/initial/x7xab12");
    assert_eq!(customer_uri("final", 120, "0"), "/customer/final/x120x0");
    assert_eq!(staff_uri(7, "ab12"), "/staff/x7xab12");
    assert_eq!(staff_uri(-45, "f"), "/staff/x-45xf");
    assert_eq!(staff_uri(0, ""), "/staff/x0x");
    assert_eq!(staff_uri(i32::MIN, "f"), "/staff/x-2147483648xf");
    assert_eq!(staff_uri(i32::MAX, "f"), "/staff/x2147483647xf");
}

#[test]
fn id_is_read_from_between_the_first_two_delimiters() {
    assert_eq!(task_id_of_path("x12xabc"), Some(12));
    assert_eq!(task_id_of_path("x12"), Some(12));
    assert_eq!(task_id_of_path("x12x"), Some(12));
    assert_eq!(task_id_of_path("ax12xbx34x"), Some(12));
    assert_eq!(task_id_of_path("x-5xff"), Some(-5));
    assert_eq!(task_id_of_path("x+5xff"), Some(5));
    assert_eq!(task_id_of_path("x00012xff"), Some(12));
    assert_eq!(task_id_of_path("x0xff"), Some(0));
    assert_eq!(task_id_of_path("x-0xff"), Some(0));
    assert_eq!(task_id_of_path("x2147483647x"), Some(i32::MAX));
    assert_eq!(task_id_of_path("x-2147483648x"), Some(i32::MIN));
    assert_eq!(task_id_of_path("\u{e9}x31x\u{e9}"), Some(31));
}

#[test]
fn path_without_readable_id_has_none() {
    assert_eq!(task_id_of_path(""), None);
    assert_eq!(task_id_of_path("12"), None);
    assert_eq!(task_id_of_path("x"), None);
    assert_eq!(task_id_of_path("xx12x"), None);
    assert_eq!(task_id_of_path("x-x"), None);
    assert_eq!(task_id_of_path("x+x"), None);
    assert_eq!(task_id_of_path("x12ax"), None);
    assert_eq!(task_id_of_path("x 12x"), None);
    assert_eq!(task_id_of_path("x1_2x"), None);
    assert_eq!(task_id_of_path("x2147483648x"), None);
    assert_eq!(task_id_of_path("x-2147483649x"), None);
    assert_eq!(task_id_of_path("x99999999999999999999999999x"), None);
    assert_eq!(task_id_of_path("x99999999999999999999999999ax"), None);
    assert_eq!(task_id_of_path("X12X"), None);
}

#[test]
fn id_of_a_link_is_the_id_it_was_built_for() {
    for id in [0, 1, 7, 10, 99, 100, 2025, -1, -10, i32::MAX, i32::MIN] {
        let token = uri_generator(id, 0, "202508121505");
        let link = customer_uri("initial", id, &token);
        let segment = link.rsplit('/').next().unwrap();
        assert_eq!(task_id_of_path(segment), Some(id));
    }
}

#[test]
fn intake_answers_with_id_and_links() {
    let mut db = DatabaseManager::build((":memory:", ":memory:")).unwrap();
    let links = post_initial_state(&mut db, report()).unwrap();
    assert_eq!(links.id, 1);
    let token = hashed(1, 0, "202508121505");
    assert_eq!(links.uri_customer, format!("/customer/initial/x1x{}", token));
    assert_eq!(links.uri_staff, format!("/staff/x1x{}", token));
    let second = post_initial_state(&mut db, report()).unwrap();
    assert_eq!(second.id, 2);
    let task = db.get_task_by_id(1).unwrap();
    assert_eq!(task.customer.as_deref(), Some("Y.S."));
    let same = initial_links(&task);
    assert_eq!(same.id, 1);
    assert_eq!(same.uri_customer, links.uri_customer);
    assert_eq!(same.uri_staff, links.uri_staff);
}

#[test]
fn intake_with_reserved_text_takes_no_id() {
    let mut db = DatabaseManager::build((":memory:", ":memory:")).unwrap();
    let mut bad = report();
    bad.staff = DATABASE_NONE_PLACER.to_string();
    assert_eq!(
        post_initial_state(&mut db, bad).err(),
        Some(WorkflowError::MalformedInput)
    );
    assert_eq!(post_initial_state(&mut db, report()).unwrap().id, 1);
}

#[test]
fn scenario_through_the_four_operations() {
    let mut db = DatabaseManager::build((":memory:", ":memory:")).unwrap();
    let links = post_initial_state(&mut db, report()).unwrap();
    let segment = links.uri_customer.rsplit('/').next().unwrap().to_string();
    make_initial_confirm(&db, &segment, "202508121626".to_string()).unwrap();
    let staff_segment = links.uri_staff.rsplit('/').next().unwrap().to_string();
    let uri = post_final_state(&db, &staff_segment, finished()).unwrap();
    assert_eq!(
        uri,
        format!("/customer/final/x1x{}", hashed(1, 1, "202508121505"))
    );
    let last = uri.rsplit('/').next().unwrap().to_string();
    make_final_confirm(&db, &last, "202508121713".to_string()).unwrap();

    let task = db.get_task_by_id(links.id).unwrap();
    assert_eq!(task.location.as_deref(), Some("qiushi"));
    assert_eq!(task.staff.as_deref(), Some("potato"));
    assert_eq!(task.customer.as_deref(), Some("Y.S."));
    assert_eq!(task.initial_check_state.as_deref(), Some("1111"));
    assert_eq!(task.remedy.as_deref(), Some("Change the CPU fan"));
    assert_eq!(task.initial_post.as_deref(), Some("202508121505"));
    assert_eq!(task.initial_confirm.as_deref(), Some("202508121626"));
    assert_eq!(task.final_check_state.as_deref(), Some("1111"));
    assert_eq!(task.final_post.as_deref(), Some("202508121711"));
    assert_eq!(task.final_confirm.as_deref(), Some("202508121713"));
    assert!(task.additional.is_none());
    assert_eq!(completion_link(&task), uri);
}

#[test]
fn confirm_of_an_unknown_id_is_not_found_and_writes_nothing() {
    let mut db = DatabaseManager::build((":memory:", ":memory:")).unwrap();
    let id = Task::build_new(&mut db).unwrap().get_id();
    assert_eq!(id, 1);
    assert_eq!(
        make_initial_confirm(&db, "x2xabc", "202508121626".to_string()),
        Err(WorkflowError::RecordNotFound)
    );
    assert_eq!(
        make_final_confirm(&db, "x2xabc", "202508121713".to_string()),
        Err(WorkflowError::RecordNotFound)
    );
    assert_eq!(
        post_final_state(&db, "x2xabc", finished()).err(),
        Some(WorkflowError::RecordNotFound)
    );
    assert_eq!(db.get_task_by_id(2).err(), Some(WorkflowError::RecordNotFound));
    let untouched = db.get_task_by_id(1).unwrap();
    assert!(untouched.initial_confirm.is_none());
    assert!(untouched.final_confirm.is_none());
    assert!(untouched.final_post.is_none());
}

#[test]
fn operations_refuse_malformed_input() {
    let mut db = DatabaseManager::build((":memory:", ":memory:")).unwrap();
    post_initial_state(&mut db, report()).unwrap();
    assert_eq!(
        make_initial_confirm(&db, "no-id-here", "202508121626".to_string()),
        Err(WorkflowError::MalformedInput)
    );
    assert_eq!(
        make_initial_confirm(&db, "x1xabc", DATABASE_NONE_PLACER.to_string()),
        Err(WorkflowError::MalformedInput)
    );
    assert_eq!(
        make_final_confirm(&db, "xx", "202508121713".to_string()),
        Err(WorkflowError::MalformedInput)
    );
    assert_eq!(
        make_final_confirm(&db, "x1xabc", DATABASE_NONE_PLACER.to_string()),
        Err(WorkflowError::MalformedInput)
    );
    assert_eq!(
        post_final_state(&db, "x1yx", finished()).err(),
        Some(WorkflowError::MalformedInput)
    );
    let mut bad = finished();
    bad.post = DATABASE_NONE_PLACER.to_string();
    assert_eq!(
        post_final_state(&db, "x1xabc", bad).err(),
        Some(WorkflowError::MalformedInput)
    );
    let task = db.get_task_by_id(1).unwrap();
    assert!(task.initial_confirm.is_none());
    assert!(task.final_post.is_none());
}

#[test]
fn stages_may_be_recorded_out_of_order() {
    let mut db = DatabaseManager::build((":memory:", ":memory:")).unwrap();
    let id = Task::build_new(&mut db).unwrap().get_id();
    make_final_confirm(&db, "x1x0", "202508121713".to_string()).unwrap();
    let task = db.get_task_by_id(id).unwrap();
    assert_eq!(task.final_confirm.as_deref(), Some("202508121713"));
    assert!(task.location.is_none());
    assert_eq!(task.stage(), workflow_backend::record::Stage::Created);
}
