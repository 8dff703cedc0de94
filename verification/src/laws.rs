use crate::database::named_fields;
use crate::record::{
    absent_text, cells_of, loaded, loaded_row, null_cells, storable, stored, stored_row,
    CompletionView, IntakeView, Stage, TaskView,
};
use crate::store::{overwritten, overwritten_upto, stage_columns, StoreKind};
use vstd::prelude::*;

verus! {

/// What a store holds in the row of a task after `stage` was recorded from
/// the task `memory`: the columns that the stage names hold the texts
/// written for the fields of `memory`, every other column holds what it
/// held. The store is taken to keep what was last written to a column.
pub open spec fn held_after(
    held: Seq<Option<Seq<char>>>,
    kind: StoreKind,
    memory: TaskView,
    stage: Stage,
) -> Seq<Option<Seq<char>>> {
    overwritten(held, stage_columns(kind, stage), stored_row(named_fields(memory, kind, stage)))
}

/// The task that is read from the rows that the two stores hold for `id`.
pub open spec fn read_from(
    id: int,
    basic: Seq<Option<Seq<char>>>,
    detail: Seq<Option<Seq<char>>>,
) -> TaskView {
    TaskView::of_fields(id, loaded_row(basic), loaded_row(detail))
}

/// What is written for a storable field reads back as that field.
pub proof fn lemma_field_round_trip(field: Option<Seq<char>>)
    requires
        storable(field),
    ensures
        loaded(Some(stored(field))) == field,
{
}

/// The row of a task that was created and never written reads as the task
/// with every field absent.
pub proof fn lemma_new_row_reads_blank(id: int)
    ensures
        read_from(id, null_cells(7), null_cells(4)) == TaskView::blank(id),
        TaskView::blank(id).wf(),
{
}

/// A task none of whose fields holds the reserved text is the task that is
/// read from rows that hold the texts of all its fields.
pub proof fn lemma_store_round_trip(task: TaskView)
    requires
        task.wf(),
    ensures
        read_from(
            task.id,
            cells_of(stored_row(task.basic_fields())),
            cells_of(stored_row(task.detail_fields())),
        ) == task,
{
}

/// Recording a storable intake report keeps a task storable.
pub proof fn lemma_intake_keeps_storable(task: TaskView, report: IntakeView)
    requires
        task.wf(),
        report.complete(),
    ensures
        task.with_intake(report).wf(),
{
}

/// Recording a storable completion report keeps a task storable.
pub proof fn lemma_completion_keeps_storable(task: TaskView, report: CompletionView)
    requires
        task.wf(),
        report.complete(),
    ensures
        task.with_completion(report).wf(),
{
}

/// Recording a confirmation at a time other than the reserved text keeps a
/// task storable.
pub proof fn lemma_confirm_keeps_storable(task: TaskView, time: Seq<char>)
    requires
        task.wf(),
        time != absent_text(),
    ensures
        task.with_initial_confirm(time).wf(),
        task.with_final_confirm(time).wf(),
{
}

/// A write keeps the width of a row that has the width of its store.
pub proof fn lemma_write_keeps_width(
    held: Seq<Option<Seq<char>>>,
    kind: StoreKind,
    memory: TaskView,
    stage: Stage,
)
    requires
        held.len() == kind.spec_columns(),
    ensures
        held_after(held, kind, memory, stage).len() == held.len(),
{
    reveal_with_fuel(overwritten_upto, 5);
    let columns = stage_columns(kind, stage);
    assert(columns.len() <= 4);
    assert(forall|i: int| 0 <= i < columns.len() ==> #[trigger] columns[i] < held.len());
}

/// Recording the intake report changes, of what the stores held, the six
/// fields of the report and nothing else: the task that is read afterwards
/// is the task that was read before with the report's six fields set. This
/// holds whatever the task in memory held in its other fields.
pub proof fn lemma_intake_changes_named_fields(
    id: int,
    basic: Seq<Option<Seq<char>>>,
    detail: Seq<Option<Seq<char>>>,
    memory: TaskView,
    report: IntakeView,
)
    requires
        basic.len() == 7,
        detail.len() == 4,
        report.complete(),
    ensures
        read_from(
            id,
            held_after(basic, StoreKind::Basic, memory.with_intake(report), Stage::IntakePosted),
            held_after(detail, StoreKind::Detail, memory.with_intake(report), Stage::IntakePosted),
        ) == read_from(id, basic, detail).with_intake(report),
{
    reveal_with_fuel(overwritten_upto, 5);
}

/// Recording the confirmation of the intake changes, of what the stores
/// held, the time of that confirmation and nothing else.
pub proof fn lemma_initial_confirm_changes_named_field(
    id: int,
    basic: Seq<Option<Seq<char>>>,
    detail: Seq<Option<Seq<char>>>,
    memory: TaskView,
    time: Seq<char>,
)
    requires
        basic.len() == 7,
        detail.len() == 4,
        time != absent_text(),
    ensures
        read_from(
            id,
            held_after(
                basic,
                StoreKind::Basic,
                memory.with_initial_confirm(time),
                Stage::IntakeConfirmed,
            ),
            held_after(
                detail,
                StoreKind::Detail,
                memory.with_initial_confirm(time),
                Stage::IntakeConfirmed,
            ),
        ) == read_from(id, basic, detail).with_initial_confirm(time),
{
    reveal_with_fuel(overwritten_upto, 5);
}

/// Recording the completion report changes, of what the stores held, the
/// three fields of the report and nothing else. A confirmation of the
/// intake that another reader of the task recorded in the meantime stays.
pub proof fn lemma_completion_changes_named_fields(
    id: int,
    basic: Seq<Option<Seq<char>>>,
    detail: Seq<Option<Seq<char>>>,
    memory: TaskView,
    report: CompletionView,
)
    requires
        basic.len() == 7,
        detail.len() == 4,
        report.complete(),
    ensures
        read_from(
            id,
            held_after(
                basic,
                StoreKind::Basic,
                memory.with_completion(report),
                Stage::CompletionPosted,
            ),
            held_after(
                detail,
                StoreKind::Detail,
                memory.with_completion(report),
                Stage::CompletionPosted,
            ),
        ) == read_from(id, basic, detail).with_completion(report),
        read_from(
            id,
            held_after(
                basic,
                StoreKind::Basic,
                memory.with_completion(report),
                Stage::CompletionPosted,
            ),
            held_after(
                detail,
                StoreKind::Detail,
                memory.with_completion(report),
                Stage::CompletionPosted,
            ),
        ).initial_confirm == read_from(id, basic, detail).initial_confirm,
{
    reveal_with_fuel(overwritten_upto, 5);
}

/// Recording the confirmation of completion changes, of what the stores
/// held, the time of that confirmation and nothing else.
pub proof fn lemma_final_confirm_changes_named_field(
    id: int,
    basic: Seq<Option<Seq<char>>>,
    detail: Seq<Option<Seq<char>>>,
    memory: TaskView,
    time: Seq<char>,
)
    requires
        basic.len() == 7,
        detail.len() == 4,
        time != absent_text(),
    ensures
        read_from(
            id,
            held_after(
                basic,
                StoreKind::Basic,
                memory.with_final_confirm(time),
                Stage::CompletionConfirmed,
            ),
            held_after(
                detail,
                StoreKind::Detail,
                memory.with_final_confirm(time),
                Stage::CompletionConfirmed,
            ),
        ) == read_from(id, basic, detail).with_final_confirm(time),
{
    reveal_with_fuel(overwritten_upto, 5);
}

/// After the intake report was recorded for a new task, the task that is
/// read back holds exactly the six texts of the report, and every field of
/// the later stages is absent.
pub proof fn lemma_intake_reads_back(id: int, memory: TaskView, report: IntakeView)
    requires
        report.complete(),
    ensures
        ({
            let read = read_from(
                id,
                held_after(
                    null_cells(7),
                    StoreKind::Basic,
                    memory.with_intake(report),
                    Stage::IntakePosted,
                ),
                held_after(
                    null_cells(4),
                    StoreKind::Detail,
                    memory.with_intake(report),
                    Stage::IntakePosted,
                ),
            );
            &&& read == TaskView::blank(id).with_intake(report)
            &&& read.location == Some(report.location)
            &&& read.staff == Some(report.staff)
            &&& read.customer == Some(report.customer)
            &&& read.initial_check_state == Some(report.initial_check)
            &&& read.remedy == Some(report.remedy)
            &&& read.initial_post == Some(report.post)
            &&& read.initial_confirm.is_none()
            &&& read.final_check_state.is_none()
            &&& read.additional.is_none()
            &&& read.final_post.is_none()
            &&& read.final_confirm.is_none()
        }),
{
    lemma_new_row_reads_blank(id);
    lemma_intake_changes_named_fields(id, null_cells(7), null_cells(4), memory, report);
}

/// A step of the lifecycle changes only the fields that it names.
pub proof fn lemma_steps_keep_other_fields(
    task: TaskView,
    intake: IntakeView,
    completion: CompletionView,
    time: Seq<char>,
)
    ensures
        ({
            let next = task.with_intake(intake);
            &&& next.id == task.id
            &&& next.initial_confirm == task.initial_confirm
            &&& next.final_check_state == task.final_check_state
            &&& next.additional == task.additional
            &&& next.final_post == task.final_post
            &&& next.final_confirm == task.final_confirm
        }),
        task.with_initial_confirm(time) == (TaskView { initial_confirm: Some(time), ..task }),
        ({
            let next = task.with_completion(completion);
            &&& next.id == task.id
            &&& next.location == task.location
            &&& next.staff == task.staff
            &&& next.customer == task.customer
            &&& next.initial_check_state == task.initial_check_state
            &&& next.remedy == task.remedy
            &&& next.initial_post == task.initial_post
            &&& next.initial_confirm == task.initial_confirm
            &&& next.final_confirm == task.final_confirm
        }),
        task.with_final_confirm(time) == (TaskView { final_confirm: Some(time), ..task }),
{
}

/// A task that goes through the four steps in order reaches each stage in
/// turn and ends in the last one, with every field but `additional`
/// present and `additional` as the completion report gave it.
pub proof fn lemma_lifecycle_in_order(
    id: int,
    intake: IntakeView,
    confirmed: Seq<char>,
    completion: CompletionView,
    closed: Seq<char>,
)
    ensures
        ({
            let created = TaskView::blank(id);
            let posted = created.with_intake(intake);
            let agreed = posted.with_initial_confirm(confirmed);
            let done = agreed.with_completion(completion);
            let ended = done.with_final_confirm(closed);
            &&& created.stage() == Stage::Created
            &&& posted.stage() == Stage::IntakePosted
            &&& agreed.stage() == Stage::IntakeConfirmed
            &&& done.stage() == Stage::CompletionPosted
            &&& ended.stage() == Stage::CompletionConfirmed
            &&& ended == TaskView {
                id,
                location: Some(intake.location),
                staff: Some(intake.staff),
                customer: Some(intake.customer),
                initial_post: Some(intake.post),
                initial_confirm: Some(confirmed),
                final_post: Some(completion.post),
                final_confirm: Some(closed),
                initial_check_state: Some(intake.initial_check),
                remedy: Some(intake.remedy),
                final_check_state: Some(completion.final_check),
                additional: completion.additional,
            }
        }),
{
}

/// A task that is created and taken through the four steps in order reads
/// back, after the last step, with exactly what the steps recorded. Each
/// step may be recorded from another copy of the task in memory, however
/// old: only what the step names reaches the stores.
pub proof fn lemma_lifecycle_through_stores(
    id: int,
    first: TaskView,
    intake: IntakeView,
    second: TaskView,
    confirmed: Seq<char>,
    third: TaskView,
    completion: CompletionView,
    fourth: TaskView,
    closed: Seq<char>,
)
    requires
        intake.complete(),
        confirmed != absent_text(),
        completion.complete(),
        closed != absent_text(),
    ensures
        ({
            let one = first.with_intake(intake);
            let two = second.with_initial_confirm(confirmed);
            let three = third.with_completion(completion);
            let four = fourth.with_final_confirm(closed);
            let basic = held_after(
                held_after(
                    held_after(
                        held_after(null_cells(7), StoreKind::Basic, one, Stage::IntakePosted),
                        StoreKind::Basic,
                        two,
                        Stage::IntakeConfirmed,
                    ),
                    StoreKind::Basic,
                    three,
                    Stage::CompletionPosted,
                ),
                StoreKind::Basic,
                four,
                Stage::CompletionConfirmed,
            );
            let detail = held_after(
                held_after(
                    held_after(
                        held_after(null_cells(4), StoreKind::Detail, one, Stage::IntakePosted),
                        StoreKind::Detail,
                        two,
                        Stage::IntakeConfirmed,
                    ),
                    StoreKind::Detail,
                    three,
                    Stage::CompletionPosted,
                ),
                StoreKind::Detail,
                four,
                Stage::CompletionConfirmed,
            );
            read_from(id, basic, detail) == TaskView::blank(id).with_intake(
                intake,
            ).with_initial_confirm(confirmed).with_completion(completion).with_final_confirm(closed)
        }),
{
    let one = first.with_intake(intake);
    let two = second.with_initial_confirm(confirmed);
    let three = third.with_completion(completion);
    let basic_0 = null_cells(7);
    let detail_0 = null_cells(4);
    let basic_1 = held_after(basic_0, StoreKind::Basic, one, Stage::IntakePosted);
    let detail_1 = held_after(detail_0, StoreKind::Detail, one, Stage::IntakePosted);
    let basic_2 = held_after(basic_1, StoreKind::Basic, two, Stage::IntakeConfirmed);
    let detail_2 = held_after(detail_1, StoreKind::Detail, two, Stage::IntakeConfirmed);
    let basic_3 = held_after(basic_2, StoreKind::Basic, three, Stage::CompletionPosted);
    let detail_3 = held_after(detail_2, StoreKind::Detail, three, Stage::CompletionPosted);
    lemma_new_row_reads_blank(id);
    lemma_write_keeps_width(basic_0, StoreKind::Basic, one, Stage::IntakePosted);
    lemma_write_keeps_width(detail_0, StoreKind::Detail, one, Stage::IntakePosted);
    lemma_write_keeps_width(basic_1, StoreKind::Basic, two, Stage::IntakeConfirmed);
    lemma_write_keeps_width(detail_1, StoreKind::Detail, two, Stage::IntakeConfirmed);
    lemma_write_keeps_width(basic_2, StoreKind::Basic, three, Stage::CompletionPosted);
    lemma_write_keeps_width(detail_2, StoreKind::Detail, three, Stage::CompletionPosted);
    lemma_intake_changes_named_fields(id, basic_0, detail_0, first, intake);
    lemma_initial_confirm_changes_named_field(id, basic_1, detail_1, second, confirmed);
    lemma_completion_changes_named_fields(id, basic_2, detail_2, third, completion);
    lemma_final_confirm_changes_named_field(id, basic_3, detail_3, fourth, closed);
}

} // verus!
