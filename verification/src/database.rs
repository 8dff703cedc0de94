use crate::allocator::{counter_after, IdentityAllocator};
use crate::error::WorkflowError;
use crate::record::{
    absent_text, CompletionView, IntakeView, Stage, TaskView, DATABASE_NONE_PLACER,
};
use crate::record::storable_row;
use crate::store::{
    all_storable, columns_of, copy_of, is_reserved, picked, picked_fields, stage_columns, Store,
    StoreKind,
};
use vstd::prelude::*;
use vstd::string::*;

verus! {

/// The two stores of a repair shop and the allocator of task ids.
///
/// A task's fields are split over two tables with the same key: the basic
/// store keeps location, people and timestamps, the detail store keeps check
/// states, remedy and the additional note. The manager reads a task from
/// both and writes to each the columns of the stage that is recorded. There
/// is no transaction across the two: when the second write fails, the first
/// stays.
pub struct DatabaseManager {
    basic_info: Store,
    detail_info: Store,
    id: IdentityAllocator,
}

/// One repair ticket: its id and its fields, each absent until its stage is
/// reached, bound to the manager that stores it.
pub struct Task<'a> {
    manager: &'a DatabaseManager,
    pub id: i32,
    pub location: Option<String>,
    pub staff: Option<String>,
    pub customer: Option<String>,
    pub initial_post: Option<String>,
    pub initial_confirm: Option<String>,
    pub final_post: Option<String>,
    pub final_confirm: Option<String>,
    /// A string of digits: the first names the version of the checklist,
    /// each later one is 1 where the inspected item works and 0 where it
    /// does not. It is stored as it comes; `check_state::inspect` reads it.
    pub initial_check_state: Option<String>,
    pub remedy: Option<String>,
    pub final_check_state: Option<String>,
    pub additional: Option<String>,
}

/// What staff report when a device is taken in.
#[derive(Debug)]
pub struct InitialState {
    pub location: String,
    pub staff: String,
    pub customer: String,
    pub initial_check: String,
    pub remedy: String,
    pub post: String,
}

/// What staff report when the repair is done.
pub struct FinalState {
    pub final_check: String,
    pub additional: Option<String>,
    pub post: String,
}

impl View for InitialState {
    type V = IntakeView;

    open spec fn view(&self) -> IntakeView {
        IntakeView {
            location: self.location@,
            staff: self.staff@,
            customer: self.customer@,
            initial_check: self.initial_check@,
            remedy: self.remedy@,
            post: self.post@,
        }
    }
}

impl View for FinalState {
    type V = CompletionView;

    open spec fn view(&self) -> CompletionView {
        CompletionView {
            final_check: self.final_check@,
            additional: self.additional.deep_view(),
            post: self.post@,
        }
    }
}

impl<'a> View for Task<'a> {
    type V = TaskView;

    closed spec fn view(&self) -> TaskView {
        TaskView {
            id: self.id as int,
            location: self.location.deep_view(),
            staff: self.staff.deep_view(),
            customer: self.customer.deep_view(),
            initial_post: self.initial_post.deep_view(),
            initial_confirm: self.initial_confirm.deep_view(),
            final_post: self.final_post.deep_view(),
            final_confirm: self.final_confirm.deep_view(),
            initial_check_state: self.initial_check_state.deep_view(),
            remedy: self.remedy.deep_view(),
            final_check_state: self.final_check_state.deep_view(),
            additional: self.additional.deep_view(),
        }
    }
}

/// The fields of a task that a stage writes in a store, in the order of
/// `stage_columns`.
pub open spec fn named_fields(task: TaskView, kind: StoreKind, stage: Stage) -> Seq<
    Option<Seq<char>>,
> {
    match kind {
        StoreKind::Basic => picked_fields(task.basic_fields(), stage_columns(kind, stage)),
        StoreKind::Detail => picked_fields(task.detail_fields(), stage_columns(kind, stage)),
    }
}

/// Whether what a stage writes of a task can be stored: none of the fields
/// that the stage names holds the reserved text.
pub open spec fn storable_at(task: TaskView, stage: Stage) -> bool {
    storable_row(named_fields(task, StoreKind::Basic, stage)) && storable_row(
        named_fields(task, StoreKind::Detail, stage),
    )
}

impl InitialState {
    /// Whether the report can be stored: none of its texts is the text
    /// reserved for an absent field.
    pub fn is_complete(&self) -> (complete: bool)
        ensures
            complete == self@.complete(),
    {
        !is_reserved(&self.location) && !is_reserved(&self.staff)
            && !is_reserved(&self.customer) && !is_reserved(&self.initial_check)
            && !is_reserved(&self.remedy) && !is_reserved(&self.post)
    }
}

impl FinalState {
    /// Whether the report can be stored: none of its texts is the text
    /// reserved for an absent field.
    pub fn is_complete(&self) -> (complete: bool)
        ensures
            complete == self@.complete(),
    {
        let additional_fits = match &self.additional {
            Some(text) => !is_reserved(text),
            None => true,
        };
        !is_reserved(&self.final_check) && additional_fits && !is_reserved(&self.post)
    }
}

impl DatabaseManager {
    #[verifier::type_invariant]
    spec fn stores_match(self) -> bool {
        self.basic_info.spec_kind() == StoreKind::Basic && self.detail_info.spec_kind()
            == StoreKind::Detail
    }

    /// The last id handed out, or the largest id found at start-up if none
    /// was handed out since.
    pub closed spec fn last_id(&self) -> i32 {
        self.id@
    }

    /// Opens the two databases, basic first, creates their tables where they
    /// are missing, and continues the ids after the largest one the basic
    /// store holds. Any step that the database refuses ends the build with
    /// `StorageUnavailable`.
    pub fn build(path: (&str, &str)) -> (built: Result<DatabaseManager, WorkflowError>)
        ensures
            built matches Err(error) ==> error == WorkflowError::StorageUnavailable,
    {
        let basic_info = match Store::open(path.0, StoreKind::Basic) {
            Ok(store) => store,
            Err(error) => {
                return Err(error);
            },
        };
        let detail_info = match Store::open(path.1, StoreKind::Detail) {
            Ok(store) => store,
            Err(error) => {
                return Err(error);
            },
        };
        let mut manager = DatabaseManager {
            basic_info,
            detail_info,
            id: IdentityAllocator::seeded(None),
        };
        match Self::load_database(&mut manager) {
            Ok(()) => Ok(manager),
            Err(error) => Err(error),
        }
    }

    /// Creates both tables where they are missing and seeds the allocator
    /// with the largest id of the basic store, or with 0 when it is empty.
    /// On failure the allocator is left as it was.
    fn load_database(manager: &mut DatabaseManager) -> (loaded: Result<(), WorkflowError>)
        ensures
            loaded matches Err(error) ==> error == WorkflowError::StorageUnavailable,
            loaded.is_err() ==> final(manager).last_id() == old(manager).last_id(),
    {
        proof {
            use_type_invariant(&*manager);
        }
        match manager.basic_info.ensure_schema() {
            Ok(()) => {},
            Err(error) => {
                return Err(error);
            },
        }
        match manager.detail_info.ensure_schema() {
            Ok(()) => {},
            Err(error) => {
                return Err(error);
            },
        }
        match manager.basic_info.max_identity() {
            Ok(max) => {
                manager.id = IdentityAllocator::seeded(max);
                Ok(())
            },
            Err(error) => Err(error),
        }
    }

    /// Inserts the row of a new task into the basic store and, if that
    /// worked, into the detail store.
    fn create_task(&self, task: &Task) -> (created: Result<(), WorkflowError>)
        ensures
            created matches Err(error) ==> error.of_insert(),
    {
        match self.basic_info.insert_identity(task.id) {
            Ok(()) => self.detail_info.insert_identity(task.id),
            Err(error) => Err(error),
        }
    }

    /// Writes the fields of `task` that `stage` names, and no others, to
    /// its row: first those of the basic store, then, if that worked, those
    /// of the detail store. A store in which the stage names no column is
    /// not asked; creation names none at all and succeeds without a write.
    ///
    /// When one of the named fields holds the reserved text nothing is
    /// written to either store and the error is `MalformedInput`.
    fn update_from_task(&self, task: &Task, stage: Stage) -> (updated: Result<(), WorkflowError>)
        ensures
            !storable_at(task@, stage) ==> updated == Err::<(), WorkflowError>(
                WorkflowError::MalformedInput,
            ),
            storable_at(task@, stage) && stage == Stage::Created ==> updated == Ok::<
                (),
                WorkflowError,
            >(()),
            storable_at(task@, stage) ==> (updated matches Err(error) ==> error.of_row_access()),
    {
        proof {
            use_type_invariant(self);
        }
        let basic_columns = columns_of(StoreKind::Basic, stage);
        let detail_columns = columns_of(StoreKind::Detail, stage);
        let basic = picked(&task.basic_fields(), &basic_columns);
        let detail = picked(&task.detail_fields(), &detail_columns);
        if !all_storable(&basic) || !all_storable(&detail) {
            return Err(WorkflowError::MalformedInput);
        }
        assert(basic.deep_view().len() == basic_columns@.len());
        assert(detail.deep_view().len() == detail_columns@.len());
        if basic_columns.len() > 0 {
            match self.basic_info.write_fields(task.id, &basic_columns, &basic) {
                Ok(()) => {},
                Err(error) => {
                    return Err(error);
                },
            }
        }
        if detail_columns.len() > 0 {
            return self.detail_info.write_fields(task.id, &detail_columns, &detail);
        }
        Ok(())
    }

    /// Reads the task with this id from both stores, basic first. The task
    /// is `Task::from_fields` of the two rows, so none of its fields holds
    /// the reserved text. When either store has no row for the id the error
    /// is `RecordNotFound`.
    pub fn get_task_by_id(&self, id: i32) -> (fetched: Result<Task<'_>, WorkflowError>)
        ensures
            fetched matches Ok(task) ==> task@.id == id && task@.wf() && task.manager() == *self,
            fetched matches Err(error) ==> error.of_row_access(),
    {
        proof {
            use_type_invariant(self);
        }
        let basic = match self.basic_info.read_fields(id) {
            Ok(fields) => fields,
            Err(error) => {
                return Err(error);
            },
        };
        let detail = match self.detail_info.read_fields(id) {
            Ok(fields) => fields,
            Err(error) => {
                return Err(error);
            },
        };
        Task::from_fields(self, id, &basic, &detail)
    }

    /// Hands out the next id.
    fn get_id(&mut self) -> (issued: Option<i32>)
        ensures
            issued == crate::allocator::issued_after(old(self).last_id() as int),
            final(self).last_id() == counter_after(old(self).last_id() as int),
    {
        proof {
            use_type_invariant(&*self);
        }
        self.id.next_id()
    }
}

impl<'a> Task<'a> {
    /// The manager that the task is bound to.
    pub closed spec fn manager(&self) -> DatabaseManager {
        *self.manager
    }

    /// A task with id 0 and every field absent, bound to `manager`. It
    /// stands for no row until it is given the id of one.
    pub fn new(manager: &'a DatabaseManager) -> (task: Task<'a>)
        ensures
            task@ == TaskView::blank(0),
            task.manager() == *manager,
    {
        Task {
            manager,
            id: 0,
            location: None,
            staff: None,
            customer: None,
            initial_post: None,
            initial_confirm: None,
            final_post: None,
            final_confirm: None,
            initial_check_state: None,
            remedy: None,
            final_check_state: None,
            additional: None,
        }
    }

    /// The task with this id whose fields are those read from the two
    /// stores: seven of the basic store and four of the detail store, each
    /// in column order. Rows of another width are refused with
    /// `MalformedInput`.
    pub fn from_fields(
        manager: &'a DatabaseManager,
        id: i32,
        basic: &Vec<Option<String>>,
        detail: &Vec<Option<String>>,
    ) -> (assembled: Result<Task<'a>, WorkflowError>)
        ensures
            basic.len() == 7 && detail.len() == 4 ==> (assembled matches Ok(task) && task@
                == TaskView::of_fields(id as int, basic.deep_view(), detail.deep_view())
                && task.manager() == *manager),
            !(basic.len() == 7 && detail.len() == 4) ==> (assembled matches Err(error) && error
                == WorkflowError::MalformedInput),
    {
        if basic.len() != 7 || detail.len() != 4 {
            return Err(WorkflowError::MalformedInput);
        }
        Ok(
            Task {
                manager,
                id,
                location: copy_of(&basic[0]),
                staff: copy_of(&basic[1]),
                customer: copy_of(&basic[2]),
                initial_post: copy_of(&basic[3]),
                initial_confirm: copy_of(&basic[4]),
                final_post: copy_of(&basic[5]),
                final_confirm: copy_of(&basic[6]),
                initial_check_state: copy_of(&detail[0]),
                remedy: copy_of(&detail[1]),
                final_check_state: copy_of(&detail[2]),
                additional: copy_of(&detail[3]),
            },
        )
    }

    /// Starts a new task: takes the next id from the manager's allocator and
    /// inserts an empty row for it into both stores.
    ///
    /// The id is taken before anything is written, so it is used up even
    /// when a store refuses the row. When the allocator has no id left
    /// nothing is written and the error is `IdentityExhausted`.
    pub fn build_new(manager: &'a mut DatabaseManager) -> (built: Result<Task<'a>, WorkflowError>)
        ensures
            final(manager).last_id() == counter_after(old(manager).last_id() as int),
            old(manager).last_id() == i32::MAX ==> (built matches Err(error) && error
                == WorkflowError::IdentityExhausted),
            old(manager).last_id() < i32::MAX ==> (built matches Err(error)
                ==> error.of_insert()),
            built matches Ok(task) ==> task@ == TaskView::blank(old(manager).last_id() + 1)
                && task.manager() == *final(manager),
    {
        let id = match manager.get_id() {
            Some(id) => id,
            None => {
                return Err(WorkflowError::IdentityExhausted);
            },
        };
        let shared: &'a DatabaseManager = &*manager;
        let mut task = Task::new(shared);
        task.id = id;
        match shared.create_task(&task) {
            Ok(()) => Ok(task),
            Err(error) => Err(error),
        }
    }

    /// Records the intake report: sets its six fields in the task and writes
    /// these six, and no other column, to the two stores.
    ///
    /// A report that holds the reserved text is refused with
    /// `MalformedInput` before anything changes. Otherwise the six fields
    /// are set in memory whatever the stores answer, and the error, if any,
    /// is the one of the first store that refused the write. What the stores
    /// hold in other columns stays, also where the task in memory is older
    /// than the row.
    ///
    /// The order of the stages is not enforced here or in the three
    /// functions that follow: each records its fields whatever the task
    /// holds already. `stage` tells a caller how far a task has come.
    pub fn update_at_initial(&mut self, state: InitialState) -> (updated: Result<
        (),
        WorkflowError,
    >)
        ensures
            final(self).manager() == old(self).manager(),
            !state@.complete() ==> final(self)@ == old(self)@ && updated == Err::<
                (),
                WorkflowError,
            >(WorkflowError::MalformedInput),
            state@.complete() ==> final(self)@ == old(self)@.with_intake(state@),
            state@.complete() ==> (updated matches Err(error) ==> error.of_row_access()),
    {
        if !state.is_complete() {
            return Err(WorkflowError::MalformedInput);
        }
        self.location = Some(state.location);
        self.staff = Some(state.staff);
        self.customer = Some(state.customer);
        self.remedy = Some(state.remedy);
        self.initial_post = Some(state.post);
        self.initial_check_state = Some(state.initial_check);
        self.update_to_database(Stage::IntakePosted)
    }

    /// Records the time at which the customer confirmed the intake report
    /// and writes this one column to the basic store. The time is not
    /// interpreted; it only may not be the reserved text, which is refused
    /// with `MalformedInput` before anything changes.
    pub fn update_initial_confirm(&mut self, time: String) -> (updated: Result<
        (),
        WorkflowError,
    >)
        ensures
            final(self).manager() == old(self).manager(),
            time@ == absent_text() ==> final(self)@ == old(self)@ && updated == Err::<
                (),
                WorkflowError,
            >(WorkflowError::MalformedInput),
            time@ != absent_text() ==> final(self)@ == old(self)@.with_initial_confirm(time@),
            time@ != absent_text() ==> (updated matches Err(error) ==> error.of_row_access()),
    {
        if is_reserved(&time) {
            return Err(WorkflowError::MalformedInput);
        }
        self.initial_confirm = Some(time);
        self.update_to_database(Stage::IntakeConfirmed)
    }

    /// Records the completion report and writes its three columns, and no
    /// other, to the two stores. The report's `additional` replaces the
    /// task's, also when it is absent. A report that holds the reserved text
    /// is refused with `MalformedInput` before anything changes.
    pub fn update_at_final(&mut self, state: FinalState) -> (updated: Result<(), WorkflowError>)
        ensures
            final(self).manager() == old(self).manager(),
            !state@.complete() ==> final(self)@ == old(self)@ && updated == Err::<
                (),
                WorkflowError,
            >(WorkflowError::MalformedInput),
            state@.complete() ==> final(self)@ == old(self)@.with_completion(state@),
            state@.complete() ==> (updated matches Err(error) ==> error.of_row_access()),
    {
        if !state.is_complete() {
            return Err(WorkflowError::MalformedInput);
        }
        self.final_check_state = Some(state.final_check);
        self.additional = state.additional;
        self.final_post = Some(state.post);
        self.update_to_database(Stage::CompletionPosted)
    }

    /// Records the time at which the customer confirmed completion and
    /// writes this one column to the basic store. The reserved text is
    /// refused with `MalformedInput` before anything changes.
    pub fn update_final_confirm(&mut self, time: String) -> (updated: Result<(), WorkflowError>)
        ensures
            final(self).manager() == old(self).manager(),
            time@ == absent_text() ==> final(self)@ == old(self)@ && updated == Err::<
                (),
                WorkflowError,
            >(WorkflowError::MalformedInput),
            time@ != absent_text() ==> final(self)@ == old(self)@.with_final_confirm(time@),
            time@ != absent_text() ==> (updated matches Err(error) ==> error.of_row_access()),
    {
        if is_reserved(&time) {
            return Err(WorkflowError::MalformedInput);
        }
        self.final_confirm = Some(time);
        self.update_to_database(Stage::CompletionConfirmed)
    }

    /// The task's id.
    pub fn get_id(&self) -> (id: i32)
        ensures
            id == self@.id,
    {
        self.id
    }

    /// The time at which the intake report was posted, or the reserved text
    /// when it was not posted yet.
    pub fn get_initial_post(&self) -> (post: String)
        ensures
            post@ == crate::record::stored(self@.initial_post),
    {
        if let Some(s) = &self.initial_post {
            return s.clone();
        }
        String::from_str(DATABASE_NONE_PLACER)
    }

    /// The seven fields kept in the basic store, in column order.
    pub fn basic_fields(&self) -> (fields: Vec<Option<String>>)
        ensures
            fields.deep_view() == self@.basic_fields(),
    {
        let mut fields: Vec<Option<String>> = Vec::new();
        fields.push(copy_of(&self.location));
        fields.push(copy_of(&self.staff));
        fields.push(copy_of(&self.customer));
        fields.push(copy_of(&self.initial_post));
        fields.push(copy_of(&self.initial_confirm));
        fields.push(copy_of(&self.final_post));
        fields.push(copy_of(&self.final_confirm));
        assert(fields.deep_view() =~= self@.basic_fields());
        fields
    }

    /// The four fields kept in the detail store, in column order.
    pub fn detail_fields(&self) -> (fields: Vec<Option<String>>)
        ensures
            fields.deep_view() == self@.detail_fields(),
    {
        let mut fields: Vec<Option<String>> = Vec::new();
        fields.push(copy_of(&self.initial_check_state));
        fields.push(copy_of(&self.remedy));
        fields.push(copy_of(&self.final_check_state));
        fields.push(copy_of(&self.additional));
        assert(fields.deep_view() =~= self@.detail_fields());
        fields
    }

    /// The furthest stage that the task has reached, judged by which of its
    /// fields are present.
    pub fn stage(&self) -> (stage: Stage)
        ensures
            stage == self@.stage(),
    {
        let intake_posted = self.location.is_some() && self.staff.is_some()
            && self.customer.is_some() && self.remedy.is_some()
            && self.initial_check_state.is_some() && self.initial_post.is_some();
        if !intake_posted {
            Stage::Created
        } else if self.initial_confirm.is_none() {
            Stage::IntakePosted
        } else if !(self.final_check_state.is_some() && self.final_post.is_some()) {
            Stage::IntakeConfirmed
        } else if self.final_confirm.is_none() {
            Stage::CompletionPosted
        } else {
            Stage::CompletionConfirmed
        }
    }

    /// Writes the fields that `stage` names, and no others, to the stores
    /// of the task's manager.
    fn update_to_database(&self, stage: Stage) -> (updated: Result<(), WorkflowError>)
        ensures
            !storable_at(self@, stage) ==> updated == Err::<(), WorkflowError>(
                WorkflowError::MalformedInput,
            ),
            storable_at(self@, stage) && stage == Stage::Created ==> updated == Ok::<
                (),
                WorkflowError,
            >(()),
            storable_at(self@, stage) ==> (updated matches Err(error) ==> error.of_row_access()),
    {
        self.manager.update_from_task(self, stage)
    }
}

} // verus!
