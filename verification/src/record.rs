use vstd::prelude::*;

verus! {

/// The text stored in a column whose field is absent. No field may hold it as
/// a value: a submission that carries it is rejected before anything is
/// written.
pub const DATABASE_NONE_PLACER: &'static str = "<absent>";

/// `DATABASE_NONE_PLACER` as a sequence of characters.
pub open spec fn absent_text() -> Seq<char> {
    DATABASE_NONE_PLACER@
}

/// What is written to a column for a field: its text, or the reserved text
/// when the field is absent.
pub open spec fn stored(field: Option<Seq<char>>) -> Seq<char> {
    match field {
        Some(text) => text,
        None => absent_text(),
    }
}

/// The field that a stored text stands for: absent for the reserved text,
/// the text itself otherwise.
pub open spec fn field_of_text(text: Seq<char>) -> Option<Seq<char>> {
    if text == absent_text() {
        None
    } else {
        Some(text)
    }
}

/// The field that a column stands for. A column that was never written is
/// null and reads as absent, as does one that holds the reserved text.
pub open spec fn loaded(cell: Option<Seq<char>>) -> Option<Seq<char>> {
    match cell {
        Some(text) => field_of_text(text),
        None => None,
    }
}

/// A field is storable when it does not hold the reserved text.
pub open spec fn storable(field: Option<Seq<char>>) -> bool {
    field != Some(absent_text())
}

/// The stages of a task, in the order in which they are reached.
#[derive(Clone, Copy, Debug, PartialEq, Eq, Structural)]
pub enum Stage {
    /// The id is allocated and both stores hold an empty row.
    Created,
    /// Staff posted the intake report.
    IntakePosted,
    /// The customer confirmed the intake report.
    IntakeConfirmed,
    /// Staff posted the completion report.
    CompletionPosted,
    /// The customer confirmed completion.
    CompletionConfirmed,
}

/// The intake report as plain texts.
pub struct IntakeView {
    pub location: Seq<char>,
    pub staff: Seq<char>,
    pub customer: Seq<char>,
    pub initial_check: Seq<char>,
    pub remedy: Seq<char>,
    pub post: Seq<char>,
}

/// The completion report as plain texts.
pub struct CompletionView {
    pub final_check: Seq<char>,
    pub additional: Option<Seq<char>>,
    pub post: Seq<char>,
}

/// A task as a mathematical record: its id and its eleven optional fields.
pub struct TaskView {
    pub id: int,
    pub location: Option<Seq<char>>,
    pub staff: Option<Seq<char>>,
    pub customer: Option<Seq<char>>,
    pub initial_post: Option<Seq<char>>,
    pub initial_confirm: Option<Seq<char>>,
    pub final_post: Option<Seq<char>>,
    pub final_confirm: Option<Seq<char>>,
    pub initial_check_state: Option<Seq<char>>,
    pub remedy: Option<Seq<char>>,
    pub final_check_state: Option<Seq<char>>,
    pub additional: Option<Seq<char>>,
}

impl IntakeView {
    /// No text of the report is the reserved text.
    pub open spec fn complete(self) -> bool {
        &&& self.location != absent_text()
        &&& self.staff != absent_text()
        &&& self.customer != absent_text()
        &&& self.initial_check != absent_text()
        &&& self.remedy != absent_text()
        &&& self.post != absent_text()
    }
}

impl CompletionView {
    /// No text of the report is the reserved text.
    pub open spec fn complete(self) -> bool {
        &&& self.final_check != absent_text()
        &&& self.additional != Some(absent_text())
        &&& self.post != absent_text()
    }
}

impl TaskView {
    /// The task with this id and every field absent.
    pub open spec fn blank(id: int) -> TaskView {
        TaskView {
            id,
            location: None,
            staff: None,
            customer: None,
            initial_post: None,
            initial_confirm: None,
            final_post: None,
            final_confirm: None,
            initial_check_state: None,
            remedy: None,
            final_check_state: None,
            additional: None,
        }
    }

    /// No field holds the reserved text, so storing the task loses nothing.
    pub open spec fn wf(self) -> bool {
        &&& storable(self.location)
        &&& storable(self.staff)
        &&& storable(self.customer)
        &&& storable(self.initial_post)
        &&& storable(self.initial_confirm)
        &&& storable(self.final_post)
        &&& storable(self.final_confirm)
        &&& storable(self.initial_check_state)
        &&& storable(self.remedy)
        &&& storable(self.final_check_state)
        &&& storable(self.additional)
    }

    /// The task after the intake report: its six fields set, the rest kept.
    pub open spec fn with_intake(self, report: IntakeView) -> TaskView {
        TaskView {
            location: Some(report.location),
            staff: Some(report.staff),
            customer: Some(report.customer),
            remedy: Some(report.remedy),
            initial_post: Some(report.post),
            initial_check_state: Some(report.initial_check),
            ..self
        }
    }

    /// The task after the customer confirmed the intake at `time`.
    pub open spec fn with_initial_confirm(self, time: Seq<char>) -> TaskView {
        TaskView { initial_confirm: Some(time), ..self }
    }

    /// The task after the completion report: check state and post time set,
    /// `additional` replaced by the report's, the rest kept.
    pub open spec fn with_completion(self, report: CompletionView) -> TaskView {
        TaskView {
            final_check_state: Some(report.final_check),
            additional: report.additional,
            final_post: Some(report.post),
            ..self
        }
    }

    /// The task after the customer confirmed completion at `time`.
    pub open spec fn with_final_confirm(self, time: Seq<char>) -> TaskView {
        TaskView { final_confirm: Some(time), ..self }
    }

    /// The seven fields kept in the basic store, in column order.
    pub open spec fn basic_fields(self) -> Seq<Option<Seq<char>>> {
        seq![
            self.location,
            self.staff,
            self.customer,
            self.initial_post,
            self.initial_confirm,
            self.final_post,
            self.final_confirm,
        ]
    }

    /// The four fields kept in the detail store, in column order.
    pub open spec fn detail_fields(self) -> Seq<Option<Seq<char>>> {
        seq![self.initial_check_state, self.remedy, self.final_check_state, self.additional]
    }

    /// The task with this id whose fields are those read from the two
    /// stores: `basic` in the column order of the basic store, `detail` in
    /// that of the detail store.
    pub open spec fn of_fields(
        id: int,
        basic: Seq<Option<Seq<char>>>,
        detail: Seq<Option<Seq<char>>>,
    ) -> TaskView {
        TaskView {
            id,
            location: basic[0],
            staff: basic[1],
            customer: basic[2],
            initial_post: basic[3],
            initial_confirm: basic[4],
            final_post: basic[5],
            final_confirm: basic[6],
            initial_check_state: detail[0],
            remedy: detail[1],
            final_check_state: detail[2],
            additional: detail[3],
        }
    }

    /// All six fields of the intake report are present.
    pub open spec fn intake_posted(self) -> bool {
        &&& self.location.is_some()
        &&& self.staff.is_some()
        &&& self.customer.is_some()
        &&& self.remedy.is_some()
        &&& self.initial_check_state.is_some()
        &&& self.initial_post.is_some()
    }

    /// The two required fields of the completion report are present.
    pub open spec fn completion_posted(self) -> bool {
        self.final_check_state.is_some() && self.final_post.is_some()
    }

    /// The furthest stage whose fields, and those of every stage before it,
    /// are present.
    pub open spec fn stage(self) -> Stage {
        if !self.intake_posted() {
            Stage::Created
        } else if self.initial_confirm.is_none() {
            Stage::IntakePosted
        } else if !self.completion_posted() {
            Stage::IntakeConfirmed
        } else if self.final_confirm.is_none() {
            Stage::CompletionPosted
        } else {
            Stage::CompletionConfirmed
        }
    }
}

/// The texts written to a row for `fields`, column by column.
pub open spec fn stored_row(fields: Seq<Option<Seq<char>>>) -> Seq<Seq<char>> {
    Seq::new(fields.len(), |i: int| stored(fields[i]))
}

/// The fields that the columns of a row stand for, column by column.
pub open spec fn loaded_row(cells: Seq<Option<Seq<char>>>) -> Seq<Option<Seq<char>>> {
    Seq::new(cells.len(), |i: int| loaded(cells[i]))
}

/// The columns of a row in which every column holds a text.
pub open spec fn cells_of(texts: Seq<Seq<char>>) -> Seq<Option<Seq<char>>> {
    Seq::new(texts.len(), |i: int| Some(texts[i]))
}

/// The columns of a row that was inserted and never written: all null.
pub open spec fn null_cells(count: nat) -> Seq<Option<Seq<char>>> {
    Seq::new(count, |i: int| None)
}

/// Every field of the row is storable.
pub open spec fn storable_row(fields: Seq<Option<Seq<char>>>) -> bool {
    forall|i: int| 0 <= i < fields.len() ==> storable(#[trigger] fields[i])
}

} // verus!
