use crate::error::{Failure, WorkflowError};
use crate::record::{
    absent_text, field_of_text, loaded, loaded_row, storable, storable_row, stored, stored_row,
    Stage, DATABASE_NONE_PLACER,
};
use crate::sqlite::{
    execute_database_command, failure_of, open_database, query_single_id, query_text_row,
};
use crate::text::{decimal, push_decimal};
use vstd::prelude::*;
use vstd::string::*;

verus! {

/// The statement that creates the table of the basic store.
pub const BASIC_SCHEMA: &'static str =
    "create table if not exists clinic_task(
                id integer primary key,
                location text,
                staff text,
                customer text,
                initial_post text,
                initial_confirm text,
                final_post text,
                final_confirm text
            )";

/// The statement that creates the table of the detail store.
pub const DETAIL_SCHEMA: &'static str =
    "create table if not exists clinic_task(
                id integer primary key,
                initial_check_state text,
                remedy text,
                final_check_state text,
                additional text
            )";

/// The statement that inserts a row holding only its id, in either store.
pub const INSERT_IDENTITY: &'static str = "insert into clinic_task (id) values (?1)";

/// The query for the seven columns of a row of the basic store.
pub const BASIC_SELECT: &'static str =
    "select location, staff, customer, initial_post, initial_confirm, final_post, final_confirm from clinic_task where id=?1";

/// The query for the four columns of a row of the detail store.
pub const DETAIL_SELECT: &'static str =
    "select initial_check_state, remedy, final_check_state, additional from clinic_task where id = ?1";

/// The query for the largest id of a store; null when the store is empty.
pub const MAX_IDENTITY: &'static str = "select max(id) from clinic_task";

/// Which of the two stores a table is.
#[derive(Clone, Copy, Debug, PartialEq, Eq, Structural)]
pub enum StoreKind {
    /// Location, people and the four timestamps.
    Basic,
    /// Check states, remedy and the additional note.
    Detail,
}

impl StoreKind {
    /// The number of text columns beside the id.
    pub open spec fn spec_columns(self) -> nat {
        match self {
            StoreKind::Basic => 7,
            StoreKind::Detail => 4,
        }
    }

    /// The number of text columns beside the id.
    pub fn columns(&self) -> (count: usize)
        ensures
            count == self.spec_columns(),
    {
        match self {
            StoreKind::Basic => 7,
            StoreKind::Detail => 4,
        }
    }

    /// The statement that creates this store's table.
    pub fn schema(&self) -> (command: &'static str)
        ensures
            command@ == (match self {
                StoreKind::Basic => BASIC_SCHEMA@,
                StoreKind::Detail => DETAIL_SCHEMA@,
            }),
    {
        match self {
            StoreKind::Basic => BASIC_SCHEMA,
            StoreKind::Detail => DETAIL_SCHEMA,
        }
    }

    /// The name of the column with this number, counted from 0 in the
    /// order of the table's text columns; the empty text for a number that
    /// the table does not have.
    pub open spec fn spec_column(self, column: usize) -> Seq<char> {
        match self {
            StoreKind::Basic => if column == 0 {
                "location"@
            } else if column == 1 {
                "staff"@
            } else if column == 2 {
                "customer"@
            } else if column == 3 {
                "initial_post"@
            } else if column == 4 {
                "initial_confirm"@
            } else if column == 5 {
                "final_post"@
            } else if column == 6 {
                "final_confirm"@
            } else {
                ""@
            },
            StoreKind::Detail => if column == 0 {
                "initial_check_state"@
            } else if column == 1 {
                "remedy"@
            } else if column == 2 {
                "final_check_state"@
            } else if column == 3 {
                "additional"@
            } else {
                ""@
            },
        }
    }

    /// The name of the column with this number, counted from 0 in the
    /// order of the table's text columns; the empty text for a number that
    /// the table does not have.
    pub fn column(&self, column: usize) -> (name: &'static str)
        ensures
            name@ == self.spec_column(column),
    {
        match self {
            StoreKind::Basic => {
                if column == 0 {
                    "location"
                } else if column == 1 {
                    "staff"
                } else if column == 2 {
                    "customer"
                } else if column == 3 {
                    "initial_post"
                } else if column == 4 {
                    "initial_confirm"
                } else if column == 5 {
                    "final_post"
                } else if column == 6 {
                    "final_confirm"
                } else {
                    ""
                }
            },
            StoreKind::Detail => {
                if column == 0 {
                    "initial_check_state"
                } else if column == 1 {
                    "remedy"
                } else if column == 2 {
                    "final_check_state"
                } else if column == 3 {
                    "additional"
                } else {
                    ""
                }
            },
        }
    }

    /// The query for a row of this store.
    pub fn select(&self) -> (command: &'static str)
        ensures
            command@ == (match self {
                StoreKind::Basic => BASIC_SELECT@,
                StoreKind::Detail => DETAIL_SELECT@,
            }),
    {
        match self {
            StoreKind::Basic => BASIC_SELECT,
            StoreKind::Detail => DETAIL_SELECT,
        }
    }
}

/// The columns that a stage of the lifecycle writes in a store, by number.
/// Creation writes none: the row it inserts holds only the id.
pub open spec fn stage_columns(kind: StoreKind, stage: Stage) -> Seq<usize> {
    match (kind, stage) {
        (StoreKind::Basic, Stage::IntakePosted) => seq![0usize, 1usize, 2usize, 3usize],
        (StoreKind::Detail, Stage::IntakePosted) => seq![0usize, 1usize],
        (StoreKind::Basic, Stage::IntakeConfirmed) => seq![4usize],
        (StoreKind::Basic, Stage::CompletionPosted) => seq![5usize],
        (StoreKind::Detail, Stage::CompletionPosted) => seq![2usize, 3usize],
        (StoreKind::Basic, Stage::CompletionConfirmed) => seq![6usize],
        _ => Seq::<usize>::empty(),
    }
}

/// Whether `columns` names columns that one statement can write: at least
/// one and no more than the store has, each a column of the store, and none
/// named twice.
pub open spec fn valid_columns(kind: StoreKind, columns: Seq<usize>) -> bool {
    &&& 0 < columns.len() <= kind.spec_columns()
    &&& forall|i: int| 0 <= i < columns.len() ==> #[trigger] columns[i] < kind.spec_columns()
    &&& forall|i: int, j: int|
        0 <= i < j < columns.len() ==> #[trigger] columns[i] != #[trigger] columns[j]
}

/// The fields of `row` in the named columns, in the order in which they are
/// named; absent for a column that the row does not have.
pub open spec fn picked_fields(row: Seq<Option<Seq<char>>>, columns: Seq<usize>) -> Seq<
    Option<Seq<char>>,
> {
    Seq::new(
        columns.len(),
        |i: int|
            if columns[i] < row.len() {
                row[columns[i] as int]
            } else {
                None
            },
    )
}

/// The comma between two assignments: none before the first.
pub open spec fn separator(position: nat) -> Seq<char> {
    if position > 1 {
        ", "@
    } else {
        Seq::<char>::empty()
    }
}

/// The assignments of an update statement: for each named column, in order,
/// its name and the parameter with its position, counted from 1.
pub open spec fn assignments(kind: StoreKind, columns: Seq<usize>) -> Seq<char>
    decreases columns.len(),
{
    if columns.len() == 0 {
        Seq::<char>::empty()
    } else {
        assignments(kind, columns.drop_last()) + separator(columns.len()) + kind.spec_column(
            columns.last(),
        ) + " = ?"@ + decimal(columns.len())
    }
}

/// The statement that overwrites the named columns of one row and no other
/// column. Its parameters are the texts for the columns, in the order in
/// which they are named, and after them the id of the row.
pub open spec fn update_text(kind: StoreKind, columns: Seq<usize>) -> Seq<char> {
    "update clinic_task set "@ + assignments(kind, columns) + " where id = ?"@ + decimal(
        columns.len() + 1,
    )
}

/// What a row holds after the first `count` of the named columns were
/// overwritten with their texts; every other column keeps what it held.
pub open spec fn overwritten_upto(
    held: Seq<Option<Seq<char>>>,
    columns: Seq<usize>,
    texts: Seq<Seq<char>>,
    count: nat,
) -> Seq<Option<Seq<char>>>
    decreases count,
{
    if count == 0 {
        held
    } else {
        overwritten_upto(held, columns, texts, (count - 1) as nat).update(
            columns[count - 1] as int,
            Some(texts[count - 1]),
        )
    }
}

/// What a row holds after the named columns were overwritten with `texts`;
/// every other column keeps what it held.
pub open spec fn overwritten(
    held: Seq<Option<Seq<char>>>,
    columns: Seq<usize>,
    texts: Seq<Seq<char>>,
) -> Seq<Option<Seq<char>>> {
    overwritten_upto(held, columns, texts, columns.len())
}

/// Whether a row of fields can be written to the named columns of a store:
/// the columns are valid, there is one field for each, and no field holds
/// the reserved text.
pub open spec fn writable(
    kind: StoreKind,
    columns: Seq<usize>,
    fields: Seq<Option<Seq<char>>>,
) -> bool {
    valid_columns(kind, columns) && fields.len() == columns.len() && storable_row(fields)
}

/// The columns that a stage of the lifecycle writes in a store.
pub fn columns_of(kind: StoreKind, stage: Stage) -> (columns: Vec<usize>)
    ensures
        columns@ == stage_columns(kind, stage),
{
    let columns: Vec<usize> = match (kind, stage) {
        (StoreKind::Basic, Stage::IntakePosted) => vec![0, 1, 2, 3],
        (StoreKind::Detail, Stage::IntakePosted) => vec![0, 1],
        (StoreKind::Basic, Stage::IntakeConfirmed) => vec![4],
        (StoreKind::Basic, Stage::CompletionPosted) => vec![5],
        (StoreKind::Detail, Stage::CompletionPosted) => vec![2, 3],
        (StoreKind::Basic, Stage::CompletionConfirmed) => vec![6],
        _ => Vec::new(),
    };
    assert(columns@ =~= stage_columns(kind, stage));
    columns
}

/// Whether `columns` names columns that one statement can write.
pub fn are_valid_columns(kind: StoreKind, columns: &Vec<usize>) -> (valid: bool)
    ensures
        valid == valid_columns(kind, columns@),
{
    let width = kind.columns();
    if columns.len() == 0 || columns.len() > width {
        return false;
    }
    let mut upper: usize = 0;
    while upper < columns.len()
        invariant
            upper <= columns.len(),
            width == kind.spec_columns(),
            forall|i: int| 0 <= i < upper ==> #[trigger] columns[i] < width,
            forall|i: int, j: int|
                0 <= i < j < upper ==> #[trigger] columns[i] != #[trigger] columns[j],
        decreases columns.len() - upper,
    {
        if columns[upper] >= width {
            return false;
        }
        let mut lower: usize = 0;
        while lower < upper
            invariant
                lower <= upper < columns.len(),
                forall|i: int| 0 <= i < lower ==> #[trigger] columns[i] != columns[upper as int],
            decreases upper - lower,
        {
            if columns[lower] == columns[upper] {
                return false;
            }
            lower = lower + 1;
        }
        upper = upper + 1;
    }
    true
}

/// The statement that overwrites the named columns of one row, or `None`
/// when the columns are not valid for the store.
pub fn update_statement(kind: StoreKind, columns: &Vec<usize>) -> (command: Option<String>)
    ensures
        valid_columns(kind, columns@) ==> (command matches Some(text) && text@ == update_text(
            kind,
            columns@,
        )),
        !valid_columns(kind, columns@) ==> command.is_none(),
{
    if !are_valid_columns(kind, columns) {
        return None;
    }
    let mut text = String::from_str("update clinic_task set ");
    let mut index: usize = 0;
    assert(columns@.subrange(0, 0) =~= Seq::<usize>::empty());
    while index < columns.len()
        invariant
            index <= columns.len() <= 7,
            text@ == "update clinic_task set "@ + assignments(
                kind,
                columns@.subrange(0, index as int),
            ),
        decreases columns.len() - index,
    {
        let ghost before = text@;
        let ghost shorter = columns@.subrange(0, index as int);
        let ghost longer = columns@.subrange(0, index + 1);
        if index > 0 {
            text.append(", ");
        }
        text.append(kind.column(columns[index]));
        text.append(" = ?");
        push_decimal(&mut text, (index + 1) as u64);
        proof {
            assert(longer.drop_last() =~= shorter);
            assert(longer.last() == columns[index as int]);
            assert(longer.len() == index + 1);
            assert(text@ =~= before + separator((index + 1) as nat) + kind.spec_column(
                columns[index as int],
            ) + " = ?"@ + decimal((index + 1) as nat));
            assert(text@ =~= "update clinic_task set "@ + assignments(kind, longer));
        }
        index = index + 1;
    }
    assert(columns@.subrange(0, index as int) =~= columns@);
    text.append(" where id = ?");
    push_decimal(&mut text, (columns.len() + 1) as u64);
    assert(text@ =~= update_text(kind, columns@));
    Some(text)
}

/// Whether `text` is the text reserved for an absent field.
pub fn is_reserved(text: &String) -> (reserved: bool)
    ensures
        reserved == (text@ == absent_text()),
{
    let none = String::from_str(DATABASE_NONE_PLACER);
    *text == none
}

/// A copy of a field.
pub fn copy_of(field: &Option<String>) -> (copy: Option<String>)
    ensures
        copy.deep_view() == field.deep_view(),
{
    match field {
        Some(text) => Some(text.clone()),
        None => None,
    }
}

/// Whether no field of the row holds the reserved text.
pub fn all_storable(fields: &Vec<Option<String>>) -> (fits: bool)
    ensures
        fits == storable_row(fields.deep_view()),
{
    let mut index: usize = 0;
    while index < fields.len()
        invariant
            index <= fields.len(),
            forall|i: int| 0 <= i < index ==> storable(#[trigger] fields.deep_view()[i]),
        decreases fields.len() - index,
    {
        let reserved = match &fields[index] {
            Some(text) => is_reserved(text),
            None => false,
        };
        if reserved {
            assert(!storable(fields.deep_view()[index as int]));
            return false;
        }
        index = index + 1;
    }
    true
}

/// The fields of `row` in the named columns, in the order in which they are
/// named; absent for a column that the row does not have.
pub fn picked(row: &Vec<Option<String>>, columns: &Vec<usize>) -> (fields: Vec<Option<String>>)
    ensures
        fields.deep_view() == picked_fields(row.deep_view(), columns@),
{
    let mut fields: Vec<Option<String>> = Vec::new();
    let mut index: usize = 0;
    while index < columns.len()
        invariant
            index <= columns.len(),
            fields.len() == index,
            forall|i: int|
                0 <= i < index ==> (#[trigger] fields[i]).deep_view() == picked_fields(
                    row.deep_view(),
                    columns@,
                )[i],
        decreases columns.len() - index,
    {
        let column = columns[index];
        if column < row.len() {
            fields.push(copy_of(&row[column]));
        } else {
            fields.push(None);
        }
        index = index + 1;
    }
    assert(fields.deep_view() =~= picked_fields(row.deep_view(), columns@));
    fields
}

/// What the database reported for a statement, with its own error reduced to
/// a `Failure`.
pub fn reduced<T>(reported: Result<T, rusqlite::Error>) -> (outcome: Result<T, Failure>)
    ensures
        reported matches Ok(value) ==> outcome == Ok::<T, Failure>(value),
        reported.is_err() ==> outcome.is_err(),
{
    match reported {
        Ok(value) => Ok(value),
        Err(error) => Err(failure_of(&error)),
    }
}

/// How a schema statement ended: any failure means the store cannot be used.
pub open spec fn schema_outcome(outcome: Result<usize, Failure>) -> Result<(), WorkflowError> {
    match outcome {
        Ok(_) => Ok(()),
        Err(_) => Err(WorkflowError::StorageUnavailable),
    }
}

/// How the insert of a new id ended. One changed row is success; a violated
/// constraint means the id is already there; all else is a storage failure.
pub open spec fn insert_outcome(outcome: Result<usize, Failure>) -> Result<(), WorkflowError> {
    match outcome {
        Ok(changed) => if changed == 1 {
            Ok(())
        } else {
            Err(WorkflowError::StorageUnavailable)
        },
        Err(Failure::Constraint) => Err(WorkflowError::DuplicateIdentity),
        Err(_) => Err(WorkflowError::StorageUnavailable),
    }
}

/// How the overwrite of a row ended. One changed row is success; none means
/// the store has no row for the id; all else is a storage failure.
pub open spec fn write_outcome(outcome: Result<usize, Failure>) -> Result<(), WorkflowError> {
    match outcome {
        Ok(changed) => if changed == 1 {
            Ok(())
        } else if changed == 0 {
            Err(WorkflowError::RecordNotFound)
        } else {
            Err(WorkflowError::StorageUnavailable)
        },
        Err(_) => Err(WorkflowError::StorageUnavailable),
    }
}

/// The error for a row query that failed: no row means the store has no row
/// for the id; all else is a storage failure.
pub open spec fn read_failure(failure: Failure) -> WorkflowError {
    match failure {
        Failure::NoRows => WorkflowError::RecordNotFound,
        _ => WorkflowError::StorageUnavailable,
    }
}

/// The largest id of a store from the answer to the query for it: null, for
/// an empty store, is no id and no error; a failure is a storage failure.
pub open spec fn max_outcome(outcome: Result<Option<i32>, Failure>) -> Result<
    Option<i32>,
    WorkflowError,
> {
    match outcome {
        Ok(max) => Ok(max),
        Err(_) => Err(WorkflowError::StorageUnavailable),
    }
}

/// Decides how a schema statement ended.
pub fn schema_result(outcome: Result<usize, Failure>) -> (result: Result<(), WorkflowError>)
    ensures
        result == schema_outcome(outcome),
{
    match outcome {
        Ok(_) => Ok(()),
        Err(_) => Err(WorkflowError::StorageUnavailable),
    }
}

/// Decides how the insert of a new id ended.
pub fn insert_result(outcome: Result<usize, Failure>) -> (result: Result<(), WorkflowError>)
    ensures
        result == insert_outcome(outcome),
{
    match outcome {
        Ok(changed) => {
            if changed == 1 {
                Ok(())
            } else {
                Err(WorkflowError::StorageUnavailable)
            }
        },
        Err(Failure::Constraint) => Err(WorkflowError::DuplicateIdentity),
        Err(_) => Err(WorkflowError::StorageUnavailable),
    }
}

/// Decides how the overwrite of a row ended.
pub fn write_result(outcome: Result<usize, Failure>) -> (result: Result<(), WorkflowError>)
    ensures
        result == write_outcome(outcome),
{
    match outcome {
        Ok(changed) => {
            if changed == 1 {
                Ok(())
            } else if changed == 0 {
                Err(WorkflowError::RecordNotFound)
            } else {
                Err(WorkflowError::StorageUnavailable)
            }
        },
        Err(_) => Err(WorkflowError::StorageUnavailable),
    }
}

/// Decides which error a failed row query is.
pub fn read_error(failure: Failure) -> (error: WorkflowError)
    ensures
        error == read_failure(failure),
{
    match failure {
        Failure::NoRows => WorkflowError::RecordNotFound,
        _ => WorkflowError::StorageUnavailable,
    }
}

/// Decides what the answer to the query for the largest id means.
pub fn max_result(outcome: Result<Option<i32>, Failure>) -> (result: Result<
    Option<i32>,
    WorkflowError,
>)
    ensures
        result == max_outcome(outcome),
{
    match outcome {
        Ok(max) => Ok(max),
        Err(_) => Err(WorkflowError::StorageUnavailable),
    }
}

/// The text written to a column for `field`.
pub fn text_of_field(field: &Option<String>) -> (text: String)
    ensures
        text@ == stored(field.deep_view()),
{
    match field {
        Some(value) => value.clone(),
        None => String::from_str(DATABASE_NONE_PLACER),
    }
}

/// The field that a stored text stands for: `None` for the reserved text.
pub fn option_string_replacer(s: String) -> (field: Option<String>)
    ensures
        field.deep_view() == field_of_text(s@),
{
    let none = String::from_str(DATABASE_NONE_PLACER);
    if s == none {
        return None;
    }
    Some(s)
}

/// The field that a column stands for: `None` for null and for the reserved
/// text.
pub fn field_of_cell(cell: &Option<String>) -> (field: Option<String>)
    ensures
        field.deep_view() == loaded(cell.deep_view()),
{
    match cell {
        Some(text) => option_string_replacer(text.clone()),
        None => None,
    }
}

/// The texts to write for `fields`, column by column.
pub fn texts_of_fields(fields: &Vec<Option<String>>) -> (texts: Vec<String>)
    ensures
        texts.deep_view() == stored_row(fields.deep_view()),
{
    let mut texts: Vec<String> = Vec::new();
    let mut index: usize = 0;
    while index < fields.len()
        invariant
            index <= fields.len(),
            texts.len() == index,
            forall|i: int|
                0 <= i < index ==> (#[trigger] texts[i])@ == stored(fields[i].deep_view()),
        decreases fields.len() - index,
    {
        texts.push(text_of_field(&fields[index]));
        index = index + 1;
    }
    assert(texts.deep_view() =~= stored_row(fields.deep_view()));
    texts
}

/// The fields that the columns of a row stand for, column by column.
pub fn fields_of_cells(cells: &Vec<Option<String>>) -> (fields: Vec<Option<String>>)
    ensures
        fields.deep_view() == loaded_row(cells.deep_view()),
{
    let mut fields: Vec<Option<String>> = Vec::new();
    let mut index: usize = 0;
    while index < cells.len()
        invariant
            index <= cells.len(),
            fields.len() == index,
            forall|i: int|
                0 <= i < index ==> (#[trigger] fields[i]).deep_view() == loaded(
                    cells[i].deep_view(),
                ),
        decreases cells.len() - index,
    {
        fields.push(field_of_cell(&cells[index]));
        index = index + 1;
    }
    assert(fields.deep_view() =~= loaded_row(cells.deep_view()));
    fields
}

/// One of the two tables, keyed by task id, behind its own connection.
pub struct Store {
    connection: rusqlite::Connection,
    kind: StoreKind,
}

impl Store {
    /// Which of the two stores this is.
    pub closed spec fn spec_kind(&self) -> StoreKind {
        self.kind
    }

    /// Which of the two stores this is.
    pub fn kind(&self) -> (kind: StoreKind)
        ensures
            kind == self.spec_kind(),
    {
        self.kind
    }

    /// Opens the store of the given kind in the database at `path`. The file
    /// system decides whether that works; when it does not, the error is
    /// `StorageUnavailable`.
    pub fn open(path: &str, kind: StoreKind) -> (opened: Result<Store, WorkflowError>)
        ensures
            opened matches Ok(store) ==> store.spec_kind() == kind,
            opened matches Err(error) ==> error == WorkflowError::StorageUnavailable,
    {
        match open_database(path) {
            Ok(connection) => Ok(Store { connection, kind }),
            Err(_) => Err(WorkflowError::StorageUnavailable),
        }
    }

    /// Creates the table when it is not there yet. The result is
    /// `schema_outcome` of what the database reported.
    pub fn ensure_schema(&self) -> (result: Result<(), WorkflowError>)
        ensures
            exists|outcome: Result<usize, Failure>| result == #[trigger] schema_outcome(outcome),
            result matches Err(error) ==> error == WorkflowError::StorageUnavailable,
    {
        let texts: Vec<String> = Vec::new();
        let ids: Vec<i32> = Vec::new();
        let reported = execute_database_command(&self.connection, self.kind.schema(), &texts, &ids);
        schema_result(reduced(reported))
    }

    /// Inserts a row that holds only `id`. The result is `insert_outcome` of
    /// what the database reported: `DuplicateIdentity` when the id is
    /// already there.
    pub fn insert_identity(&self, id: i32) -> (result: Result<(), WorkflowError>)
        ensures
            exists|outcome: Result<usize, Failure>| result == #[trigger] insert_outcome(outcome),
            result matches Err(error) ==> error.of_insert(),
    {
        let texts: Vec<String> = Vec::new();
        let ids: Vec<i32> = vec![id];
        let reported = execute_database_command(&self.connection, INSERT_IDENTITY, &texts, &ids);
        insert_result(reduced(reported))
    }

    /// Overwrites the named columns of the row of `id` with `fields`, one
    /// field for each column in the order in which the columns are named,
    /// writing the reserved text for an absent field. No other column of
    /// the row is part of the statement.
    ///
    /// When the columns are not valid for this store (none, one that the
    /// store does not have, one named twice), when their number is not that
    /// of the fields, or when a field holds the reserved text, nothing is
    /// handed to the database and the error is `MalformedInput`.
    /// Otherwise the result is `write_outcome` of what the database
    /// reported: `RecordNotFound` when no row has the id.
    pub fn write_fields(
        &self,
        id: i32,
        columns: &Vec<usize>,
        fields: &Vec<Option<String>>,
    ) -> (result: Result<(), WorkflowError>)
        ensures
            !writable(self.spec_kind(), columns@, fields.deep_view()) ==> result == Err::<
                (),
                WorkflowError,
            >(WorkflowError::MalformedInput),
            writable(self.spec_kind(), columns@, fields.deep_view()) ==> exists|
                outcome: Result<usize, Failure>,
            | result == #[trigger] write_outcome(outcome),
            writable(self.spec_kind(), columns@, fields.deep_view()) ==> (result matches Err(
                error,
            ) ==> error.of_row_access()),
    {
        if fields.len() != columns.len() || !all_storable(fields) {
            return Err(WorkflowError::MalformedInput);
        }
        let command = match update_statement(self.kind, columns) {
            Some(command) => command,
            None => {
                return Err(WorkflowError::MalformedInput);
            },
        };
        let texts = texts_of_fields(fields);
        let ids: Vec<i32> = vec![id];
        let reported = execute_database_command(&self.connection, command.as_str(), &texts, &ids);
        write_result(reduced(reported))
    }

    /// Reads every field of the row of `id`. A column that holds null or the
    /// reserved text is an absent field, so no field that is handed back
    /// holds the reserved text. The error is `read_failure` of what the
    /// database reported: `RecordNotFound` when no row has the id.
    pub fn read_fields(&self, id: i32) -> (result: Result<Vec<Option<String>>, WorkflowError>)
        ensures
            result matches Ok(fields) ==> fields.len() == self.spec_kind().spec_columns()
                && storable_row(fields.deep_view()),
            result matches Err(error) ==> exists|failure: Failure|
                error == #[trigger] read_failure(failure),
            result matches Err(error) ==> error.of_row_access(),
    {
        let reported = query_text_row(
            &self.connection,
            self.kind.select(),
            id,
            self.kind.columns(),
        );
        match reduced(reported) {
            Ok(cells) => {
                let fields = fields_of_cells(&cells);
                assert(storable_row(fields.deep_view())) by {
                    assert forall|i: int| 0 <= i < fields.deep_view().len() implies storable(
                        #[trigger] fields.deep_view()[i],
                    ) by {
                        assert(fields.deep_view()[i] == loaded(cells.deep_view()[i]));
                    }
                }
                Ok(fields)
            },
            Err(failure) => Err(read_error(failure)),
        }
    }

    /// The largest id of the store, `None` when the store is empty. The
    /// result is `max_outcome` of what the database reported.
    pub fn max_identity(&self) -> (result: Result<Option<i32>, WorkflowError>)
        ensures
            exists|outcome: Result<Option<i32>, Failure>|
                result == #[trigger] max_outcome(outcome),
            result matches Err(error) ==> error == WorkflowError::StorageUnavailable,
    {
        max_result(reduced(query_single_id(&self.connection, MAX_IDENTITY)))
    }
}

} // verus!
