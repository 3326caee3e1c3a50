//! Cover art waiting in the upload queue: the `coverartQueue` table.

use vstd::prelude::*;
use crate::error::RepoError;
use crate::repo::ReturnedId;
use crate::statement::{numbers_placeholders, placeholder_at, with_id, Execution, Param, ParamValue, Statement};

verus! {

/// A queued cover art: its file type and the queued song it belongs to.
#[derive(Debug)]
pub struct CoverArtQueue {
    pub id: uuid::Uuid,
    pub file_type: String,
    pub song_queue_id: uuid::Uuid,
}

/// What a [`CoverArtQueue`] is, in specifications.
pub struct CoverArtQueueView {
    pub id: uuid::Uuid,
    pub file_type: Seq<char>,
    pub song_queue_id: uuid::Uuid,
}

impl View for CoverArtQueue {
    type V = CoverArtQueueView;

    open spec fn view(&self) -> CoverArtQueueView {
        CoverArtQueueView { id: self.id, file_type: self.file_type@, song_queue_id: self.song_queue_id }
    }
}

/// A `coverartQueue` row as the driver decoded it: one result per column.
#[derive(Debug)]
pub struct CoverArtQueueRow {
    pub id: Result<uuid::Uuid, sqlx::Error>,
    pub file_type: Result<String, sqlx::Error>,
    pub song_queue_id: Result<uuid::Uuid, sqlx::Error>,
}

impl CoverArtQueueRow {
    /// Every column decoded.
    pub open spec fn is_decoded(&self) -> bool {
        &&& self.id is Ok
        &&& self.file_type is Ok
        &&& self.song_queue_id is Ok
    }

    /// The queued cover art that a decoded row stands for.
    pub open spec fn entry(&self) -> CoverArtQueueView {
        CoverArtQueueView {
            id: self.id->Ok_0,
            file_type: self.file_type->Ok_0@,
            song_queue_id: self.song_queue_id->Ok_0,
        }
    }
}

pub const INSERT_SQL: &'static str = "\n        INSERT INTO \"coverartQueue\" (file_type) VALUES($1) RETURNING id;\n        ";

pub const UPDATE_SQL: &'static str = "\n        UPDATE \"coverartQueue\" SET song_queue_id = $1 WHERE id = $2;\n        ";

pub const SELECT_BY_ID_SQL: &'static str = "\n        SELECT id, file_type, song_queue_id FROM \"coverartQueue\" WHERE id = $1;\n        ";

pub const SELECT_BY_SONG_QUEUE_ID_SQL: &'static str = "\n        SELECT id, file_type, song_queue_id FROM \"coverartQueue\" WHERE song_queue_id = $1;\n        ";

proof fn lemma_insert_sql()
    ensures
        numbers_placeholders(INSERT_SQL@, 1),
{
    reveal_strlit("\n        INSERT INTO \"coverartQueue\" (file_type) VALUES($1) RETURNING id;\n        ");
    assert(placeholder_at(INSERT_SQL@, 56, 1));
}

proof fn lemma_update_sql()
    ensures
        numbers_placeholders(UPDATE_SQL@, 2),
{
    reveal_strlit("\n        UPDATE \"coverartQueue\" SET song_queue_id = $1 WHERE id = $2;\n        ");
    assert(placeholder_at(UPDATE_SQL@, 52, 1));
    assert(placeholder_at(UPDATE_SQL@, 66, 2));
}

proof fn lemma_select_by_id_sql()
    ensures
        numbers_placeholders(SELECT_BY_ID_SQL@, 1),
{
    reveal_strlit("\n        SELECT id, file_type, song_queue_id FROM \"coverartQueue\" WHERE id = $1;\n        ");
    assert(placeholder_at(SELECT_BY_ID_SQL@, 77, 1));
}

proof fn lemma_select_by_song_queue_id_sql()
    ensures
        numbers_placeholders(SELECT_BY_SONG_QUEUE_ID_SQL@, 1),
{
    reveal_strlit("\n        SELECT id, file_type, song_queue_id FROM \"coverartQueue\" WHERE song_queue_id = $1;\n        ");
    assert(placeholder_at(SELECT_BY_SONG_QUEUE_ID_SQL@, 88, 1));
}

/// Builds the statement that queues a cover art of type `file_type` and
/// returns the new row's id.
pub fn insert_statement(file_type: &str) -> (st: Statement)
    ensures
        st.sql == INSERT_SQL,
        st.execution == Execution::FetchOne,
        st.values() == seq![ParamValue::Text(file_type@)],
        st.well_formed(),
        st.params@.len() == 1,
        st.params@[0] matches Param::Text(t) && t@ == file_type@,
{
    let mut params: Vec<Param> = Vec::new();
    params.push(Param::Text(file_type.to_owned()));
    proof {
        lemma_insert_sql();
    }
    let st = Statement { sql: INSERT_SQL, params, execution: Execution::FetchOne };
    assert(st.values() =~= seq![ParamValue::Text(file_type@)]);
    st
}

/// The result of [`insert_statement`]: the new row's id, or
/// [`RepoError::RowNotFound`] whatever the database's error was.
pub fn insert_outcome(fetched: Result<ReturnedId, sqlx::Error>) -> (res: Result<uuid::Uuid, RepoError>)
    requires
        fetched matches Ok(row) ==> row.id is Ok,
    ensures
        match fetched {
            Ok(row) => res == Ok::<uuid::Uuid, RepoError>(row.id->Ok_0),
            Err(_) => res matches Err(RepoError::RowNotFound),
        },
{
    match fetched {
        Ok(row) => Ok(row.id.unwrap()),
        Err(_) => Err(RepoError::RowNotFound),
    }
}

/// Builds the statement that links the queued cover art `coverart_id` to the
/// queued song `song_queue_id`.
pub fn update_statement(coverart_id: &uuid::Uuid, song_queue_id: &uuid::Uuid) -> (st: Statement)
    ensures
        st.sql == UPDATE_SQL,
        st.execution == Execution::Execute,
        st.values() == seq![ParamValue::Id(*song_queue_id), ParamValue::Id(*coverart_id)],
        st.well_formed(),
        st.params@.len() == 2,
        st.params@[0] matches Param::Id(v) && v == *song_queue_id,
        st.params@[1] matches Param::Id(v) && v == *coverart_id,
{
    let mut params: Vec<Param> = Vec::new();
    params.push(Param::Id(*song_queue_id));
    params.push(Param::Id(*coverart_id));
    proof {
        lemma_update_sql();
    }
    let st = Statement { sql: UPDATE_SQL, params, execution: Execution::Execute };
    assert(st.values() =~= seq![ParamValue::Id(*song_queue_id), ParamValue::Id(*coverart_id)]);
    st
}

/// The result of [`update_statement`]: `0` once it ran, however many rows it
/// changed, or [`RepoError::RowNotFound`] whatever the database's error was.
pub fn update_outcome(executed: Result<(), sqlx::Error>) -> (res: Result<i32, RepoError>)
    ensures
        match executed {
            Ok(_) => res == Ok::<i32, RepoError>(0),
            Err(_) => res matches Err(RepoError::RowNotFound),
        },
{
    match executed {
        Ok(_) => Ok(0),
        Err(_) => Err(RepoError::RowNotFound),
    }
}

/// Builds the statement that reads the queued cover art whose id is `id`.
pub fn get_coverart_queue_with_id_statement(id: &uuid::Uuid) -> (st: Statement)
    ensures
        st.sql == SELECT_BY_ID_SQL,
        st.execution == Execution::FetchOne,
        st.values() == seq![ParamValue::Id(*id)],
        st.well_formed(),
{
    proof {
        lemma_select_by_id_sql();
    }
    with_id(SELECT_BY_ID_SQL, id, Execution::FetchOne)
}

/// Builds the statement that reads the queued cover art linked to the
/// queued song `song_queue_id`.
pub fn get_coverart_queue_with_song_queue_id_statement(song_queue_id: &uuid::Uuid) -> (st: Statement)
    ensures
        st.sql == SELECT_BY_SONG_QUEUE_ID_SQL,
        st.execution == Execution::FetchOne,
        st.values() == seq![ParamValue::Id(*song_queue_id)],
        st.well_formed(),
{
    proof {
        lemma_select_by_song_queue_id_sql();
    }
    with_id(SELECT_BY_SONG_QUEUE_ID_SQL, song_queue_id, Execution::FetchOne)
}

/// The result of the statements of [`get_coverart_queue_with_id_statement`]
/// and [`get_coverart_queue_with_song_queue_id_statement`]: the queued cover
/// art the row holds, or [`RepoError::RowNotFound`] whatever the database's
/// error was.
pub fn coverart_queue_outcome(fetched: Result<CoverArtQueueRow, sqlx::Error>) -> (res: Result<CoverArtQueue, RepoError>)
    requires
        fetched matches Ok(row) ==> row.is_decoded(),
    ensures
        match fetched {
            Ok(row) => res matches Ok(entry) && {
                &&& entry@ == row.entry()
                &&& entry.id == row.id->Ok_0
                &&& entry.file_type@ == row.file_type->Ok_0@
                &&& entry.song_queue_id == row.song_queue_id->Ok_0
            },
            Err(_) => res matches Err(RepoError::RowNotFound),
        },
{
    match fetched {
        Ok(row) => Ok(CoverArtQueue {
            id: row.id.unwrap(),
            file_type: row.file_type.unwrap(),
            song_queue_id: row.song_queue_id.unwrap(),
        }),
        Err(_) => Err(RepoError::RowNotFound),
    }
}

/// A queued cover art's view is its fields, each as it is.
pub proof fn lemma_entry_view_is_its_fields(entry: CoverArtQueue)
    ensures
        entry@.id == entry.id,
        entry@.file_type == entry.file_type@,
        entry@.song_queue_id == entry.song_queue_id,
{
}

/// Reading a row takes every field from the column of the same name, for
/// every row whatever its file type: the id from `id`, the queued song from
/// `song_queue_id`.
pub proof fn lemma_read_takes_each_field_from_its_column(row: CoverArtQueueRow)
    ensures
        row.entry().id == row.id->Ok_0,
        row.entry().file_type == row.file_type->Ok_0@,
        row.entry().song_queue_id == row.song_queue_id->Ok_0,
{
}

} // verus!
