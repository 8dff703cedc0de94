use crate::allocator::counter_after;
use crate::database::{DatabaseManager, FinalState, InitialState, Task};
use crate::error::WorkflowError;
use crate::link::{id_in_path, link_segment, push_segment, task_id_of_path};
use crate::record::{absent_text, stored};
use crate::store::is_reserved;
use crate::text::{hex_text, lemma_hex_injective, lower_hex};
use std::collections::hash_map::DefaultHasher;
use std::hash::{Hash, Hasher};
use vstd::prelude::*;
use vstd::std_specs::hash::DefaultHasherAdditionalSpecFns;
use vstd::string::*;

verus! {

/// The root of the links that staff follow.
pub const STAFF: &'static str = "/staff";

/// The root of the links that customers follow.
pub const CUSTOMER: &'static str = "/customer";

/// The stage number that goes into the token of an intake link.
pub const INTAKE: usize = 0;

/// The stage number that goes into the token of a completion link.
pub const COMPLETION: usize = 1;

/// What a `DefaultHasher` has been fed after an `i32` was hashed into it:
/// the result of `<i32 as Hash>::hash` on a hasher that was fed `written`.
pub uninterp spec fn hashed_i32(written: Seq<Seq<u8>>, value: i32) -> Seq<Seq<u8>>;

/// What a `DefaultHasher` has been fed after a `usize` was hashed into it:
/// the result of `<usize as Hash>::hash` on a hasher that was fed `written`.
pub uninterp spec fn hashed_usize(written: Seq<Seq<u8>>, value: usize) -> Seq<Seq<u8>>;

/// What a `DefaultHasher` has been fed after a string was hashed into it:
/// the result of `<str as Hash>::hash` on a hasher that was fed `written`.
pub uninterp spec fn hashed_str(written: Seq<Seq<u8>>, value: Seq<char>) -> Seq<Seq<u8>>;

/// Feeds `value` to the hasher with `<i32 as Hash>::hash`. What the hasher
/// holds afterwards depends only on what it held and on `value`.
#[verifier::external_body]
fn hash_i32(value: i32, state: &mut DefaultHasher)
    ensures
        final(state)@ == hashed_i32(old(state)@, value),
{
    value.hash(state)
}

/// Feeds `value` to the hasher with `<usize as Hash>::hash`. What the hasher
/// holds afterwards depends only on what it held and on `value`.
#[verifier::external_body]
fn hash_usize(value: usize, state: &mut DefaultHasher)
    ensures
        final(state)@ == hashed_usize(old(state)@, value),
{
    value.hash(state)
}

/// Feeds `value` to the hasher with `<str as Hash>::hash`. What the hasher
/// holds afterwards depends only on what it held and on `value`.
#[verifier::external_body]
fn hash_str(value: &str, state: &mut DefaultHasher)
    ensures
        final(state)@ == hashed_str(old(state)@, value@),
{
    value.hash(state)
}

/// The 64-bit digest of a task id, a stage number and a content, hashed in
/// this order by a fresh `DefaultHasher`.
pub open spec fn token_digest(a: i32, b: usize, c: Seq<char>) -> u64 {
    DefaultHasher::spec_finish(
        hashed_str(hashed_usize(hashed_i32(Seq::<Seq<u8>>::empty(), a), b), c),
    )
}

/// The token for a task id, a stage number and a content: their digest in
/// lower-case hexadecimal.
pub open spec fn token_text(a: i32, b: usize, c: Seq<char>) -> Seq<char> {
    lower_hex(token_digest(a, b, c) as nat)
}

/// The link a customer follows for a stage of a task.
pub open spec fn customer_link(stage: Seq<char>, id: int, token: Seq<char>) -> Seq<char> {
    CUSTOMER@ + seq!['/'] + stage + seq!['/'] + link_segment(id, token)
}

/// The link staff follow for a task.
pub open spec fn staff_link(id: int, token: Seq<char>) -> Seq<char> {
    STAFF@ + seq!['/'] + link_segment(id, token)
}

/// The answer to a new intake report: the id of the task that was created
/// and the links that lead on from it.
pub struct InitialLinks {
    pub id: i32,
    pub uri_customer: String,
    pub uri_staff: String,
}

/// Derives the token that goes into a link from a task id, a stage number
/// and a content.
///
/// The token only tells links apart. It is derived from values that anyone
/// can guess, with a hash that is not cryptographic, and nothing checks it
/// when a link is followed: it grants no access.
pub fn uri_generator(a: i32, b: usize, c: &str) -> (token: String)
    ensures
        token@ == token_text(a, b, c@),
{
    let mut hasher = DefaultHasher::new();
    hash_i32(a, &mut hasher);
    hash_usize(b, &mut hasher);
    hash_str(c, &mut hasher);
    hex_text(hasher.finish())
}

/// Builds the link a customer follows for the stage named `stage`.
pub fn customer_uri(stage: &str, id: i32, token: &str) -> (uri: String)
    ensures
        uri@ == customer_link(stage@, id as int, token@),
{
    proof {
        reveal_strlit("/");
    }
    let mut uri = String::from_str(CUSTOMER);
    uri.append("/");
    uri.append(stage);
    uri.append("/");
    push_segment(&mut uri, id, token);
    assert(uri@ =~= customer_link(stage@, id as int, token@));
    uri
}

/// Builds the link staff follow for a task.
pub fn staff_uri(id: i32, token: &str) -> (uri: String)
    ensures
        uri@ == staff_link(id as int, token@),
{
    proof {
        reveal_strlit("/");
    }
    let mut uri = String::from_str(STAFF);
    uri.append("/");
    push_segment(&mut uri, id, token);
    assert(uri@ =~= staff_link(id as int, token@));
    uri
}

/// The links that answer the intake report for `task`.
pub fn initial_links(task: &Task) -> (links: InitialLinks)
    ensures
        links.id == task@.id,
        links.uri_customer@ == customer_link(
            "initial"@,
            task@.id,
            token_text(task@.id as i32, INTAKE, stored(task@.initial_post)),
        ),
        links.uri_staff@ == staff_link(
            task@.id,
            token_text(task@.id as i32, INTAKE, stored(task@.initial_post)),
        ),
{
    let id = task.get_id();
    let post = task.get_initial_post();
    let token = uri_generator(id, INTAKE, post.as_str());
    InitialLinks {
        id,
        uri_customer: customer_uri("initial", id, token.as_str()),
        uri_staff: staff_uri(id, token.as_str()),
    }
}

/// The link on which the customer confirms the completion of `task`.
pub fn completion_link(task: &Task) -> (uri: String)
    ensures
        uri@ == customer_link(
            "final"@,
            task@.id,
            token_text(task@.id as i32, COMPLETION, stored(task@.initial_post)),
        ),
{
    let id = task.get_id();
    let post = task.get_initial_post();
    let token = uri_generator(id, COMPLETION, post.as_str());
    customer_uri("final", id, token.as_str())
}

/// Takes in a device: creates a task, records the intake report and hands
/// back the task's id with the links for customer and staff.
///
/// A report that holds the reserved text is refused before an id is taken.
/// Otherwise an id is taken, and it is used up even when a store fails.
pub fn post_initial_state(manager: &mut DatabaseManager, mes: InitialState) -> (answer: Result<
    InitialLinks,
    WorkflowError,
>)
    ensures
        !mes@.complete() ==> final(manager).last_id() == old(manager).last_id(),
        !mes@.complete() ==> (answer matches Err(error) && error == WorkflowError::MalformedInput),
        mes@.complete() ==> final(manager).last_id() == counter_after(
            old(manager).last_id() as int,
        ),
        mes@.complete() && old(manager).last_id() == i32::MAX ==> (answer matches Err(error)
            && error == WorkflowError::IdentityExhausted),
        mes@.complete() && old(manager).last_id() < i32::MAX ==> (answer matches Err(error)
            ==> error.of_insert() || error.of_row_access()),
        answer matches Ok(links) ==> links.id == old(manager).last_id() + 1
            && links.uri_customer@ == customer_link(
            "initial"@,
            links.id as int,
            token_text(links.id, INTAKE, mes.post@),
        ) && links.uri_staff@ == staff_link(
            links.id as int,
            token_text(links.id, INTAKE, mes.post@),
        ),
{
    if !mes.is_complete() {
        return Err(WorkflowError::MalformedInput);
    }
    let mut task = match Task::build_new(manager) {
        Ok(task) => task,
        Err(error) => {
            return Err(error);
        },
    };
    match task.update_at_initial(mes) {
        Ok(()) => Ok(initial_links(&task)),
        Err(error) => Err(error),
    }
}

/// Records that the customer confirmed the intake report for the task named
/// in `path` at the time `mes`.
///
/// A path without a readable id, or the reserved text as time, is refused
/// with `MalformedInput` before any store is asked. When a store has no row
/// for the id the error is `RecordNotFound`, and what was read decides: the
/// task is written only after both stores handed out its row.
pub fn make_initial_confirm(manager: &DatabaseManager, path: &str, mes: String) -> (answer: Result<
    (),
    WorkflowError,
>)
    ensures
        id_in_path(path.spec_bytes()).is_none() || mes@ == absent_text() ==> answer == Err::<
            (),
            WorkflowError,
        >(WorkflowError::MalformedInput),
        id_in_path(path.spec_bytes()).is_some() && mes@ != absent_text() ==> (answer matches Err(
            error,
        ) ==> error.of_row_access()),
{
    let id = match task_id_of_path(path) {
        Some(id) => id,
        None => {
            return Err(WorkflowError::MalformedInput);
        },
    };
    if is_reserved(&mes) {
        return Err(WorkflowError::MalformedInput);
    }
    let mut task = match manager.get_task_by_id(id) {
        Ok(task) => task,
        Err(error) => {
            return Err(error);
        },
    };
    task.update_initial_confirm(mes)
}

/// Records the completion report for the task named in `path` and hands
/// back the link on which the customer confirms completion.
///
/// A path without a readable id, or a report that holds the reserved text,
/// is refused with `MalformedInput` before any store is asked. The link's
/// token is derived from the time at which the intake report was posted, as
/// the stores hold it.
pub fn post_final_state(manager: &DatabaseManager, path: &str, mes: FinalState) -> (answer: Result<
    String,
    WorkflowError,
>)
    ensures
        id_in_path(path.spec_bytes()).is_none() || !mes@.complete() ==> (answer matches Err(error)
            && error == WorkflowError::MalformedInput),
        id_in_path(path.spec_bytes()).is_some() && mes@.complete() ==> (answer matches Err(error)
            ==> error.of_row_access()),
        answer matches Ok(uri) ==> exists|post: Option<Seq<char>>|
            uri@ == #[trigger] customer_link(
                "final"@,
                id_in_path(path.spec_bytes()).unwrap() as int,
                token_text(id_in_path(path.spec_bytes()).unwrap(), COMPLETION, stored(post)),
            ),
{
    let id = match task_id_of_path(path) {
        Some(id) => id,
        None => {
            return Err(WorkflowError::MalformedInput);
        },
    };
    if !mes.is_complete() {
        return Err(WorkflowError::MalformedInput);
    }
    let mut task = match manager.get_task_by_id(id) {
        Ok(task) => task,
        Err(error) => {
            return Err(error);
        },
    };
    match task.update_at_final(mes) {
        Ok(()) => {
            let uri = completion_link(&task);
            Ok(uri)
        },
        Err(error) => Err(error),
    }
}

/// Records that the customer confirmed the completion of the task named in
/// `path` at the time `mes`. This is the last stage of a task.
///
/// A path without a readable id, or the reserved text as time, is refused
/// with `MalformedInput` before any store is asked.
pub fn make_final_confirm(manager: &DatabaseManager, path: &str, mes: String) -> (answer: Result<
    (),
    WorkflowError,
>)
    ensures
        id_in_path(path.spec_bytes()).is_none() || mes@ == absent_text() ==> answer == Err::<
            (),
            WorkflowError,
        >(WorkflowError::MalformedInput),
        id_in_path(path.spec_bytes()).is_some() && mes@ != absent_text() ==> (answer matches Err(
            error,
        ) ==> error.of_row_access()),
{
    let id = match task_id_of_path(path) {
        Some(id) => id,
        None => {
            return Err(WorkflowError::MalformedInput);
        },
    };
    if is_reserved(&mes) {
        return Err(WorkflowError::MalformedInput);
    }
    let mut task = match manager.get_task_by_id(id) {
        Ok(task) => task,
        Err(error) => {
            return Err(error);
        },
    };
    task.update_final_confirm(mes)
}

/// The token is a function of what it is derived from: two tokens derived
/// from the same id, stage number and content are the same text.
pub proof fn lemma_token_repeats(a: i32, b: usize, c: Seq<char>, first: Seq<char>, second: Seq<char>)
    requires
        first == token_text(a, b, c),
        second == token_text(a, b, c),
    ensures
        first == second,
{
}

/// Two tokens are the same text exactly when their digests are the same
/// number. The links of the two stages of one task therefore differ unless
/// the hash gives both stage numbers the same digest.
pub proof fn lemma_tokens_differ_with_digests(
    a: i32,
    b: usize,
    c: Seq<char>,
    other_a: i32,
    other_b: usize,
    other_c: Seq<char>,
)
    ensures
        token_text(a, b, c) == token_text(other_a, other_b, other_c) <==> token_digest(a, b, c)
            == token_digest(other_a, other_b, other_c),
{
    if token_text(a, b, c) == token_text(other_a, other_b, other_c) {
        lemma_hex_injective(
            token_digest(a, b, c) as nat,
            token_digest(other_a, other_b, other_c) as nat,
        );
    }
}

} // verus!
