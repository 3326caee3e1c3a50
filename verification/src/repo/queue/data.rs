//! Where a queued song's file is stored: the `songQueueData` table.

use vstd::prelude::*;
use crate::error::RepoError;
use crate::repo::ReturnedId;
use crate::statement::{numbers_placeholders, placeholder_at, with_id, Execution, Param, ParamValue, Statement};

verus! {

/// A `songQueueData` row as the driver decoded it: one result per column.
#[derive(Debug)]
pub struct QueueDataRow {
    pub id: Result<uuid::Uuid, sqlx::Error>,
    pub file_key: Result<String, sqlx::Error>,
    pub bucket: Result<String, sqlx::Error>,
    pub region: Result<String, sqlx::Error>,
    pub song_queue_id: Result<uuid::Uuid, sqlx::Error>,
}

/// A stored file as the lookups return it:
/// `(id, file_key, bucket, region, song_queue_id)`.
pub type QueueData = (uuid::Uuid, String, String, String, uuid::Uuid);

/// What a [`QueueData`] is, in specifications.
pub type QueueDataView = (uuid::Uuid, Seq<char>, Seq<char>, Seq<char>, uuid::Uuid);

pub open spec fn queue_data_view(found: QueueData) -> QueueDataView {
    (found.0, found.1@, found.2@, found.3@, found.4)
}

/// The values that [`insert_statement`] binds, in placeholder order.
pub open spec fn insert_values(
    file_key: Seq<char>,
    bucket: Seq<char>,
    region: Seq<char>,
    song_queue_id: uuid::Uuid,
) -> Seq<ParamValue> {
    seq![
        ParamValue::Text(file_key),
        ParamValue::Text(bucket),
        ParamValue::Text(region),
        ParamValue::Id(song_queue_id),
    ]
}

impl QueueDataRow {
    /// The error of the first column that the lookup by id reads and that
    /// did not decode: `file_key`, `bucket`, `region`, `song_queue_id`.
    pub open spec fn get_failure(&self) -> Option<sqlx::Error> {
        if self.file_key is Err {
            Some(self.file_key->Err_0)
        } else if self.bucket is Err {
            Some(self.bucket->Err_0)
        } else if self.region is Err {
            Some(self.region->Err_0)
        } else if self.song_queue_id is Err {
            Some(self.song_queue_id->Err_0)
        } else {
            None
        }
    }

    /// The error of the first column that the lookup by queued song reads
    /// and that did not decode: `id`, `file_key`, `bucket`, `region`.
    pub open spec fn get_with_song_queue_id_failure(&self) -> Option<sqlx::Error> {
        if self.id is Err {
            Some(self.id->Err_0)
        } else if self.file_key is Err {
            Some(self.file_key->Err_0)
        } else if self.bucket is Err {
            Some(self.bucket->Err_0)
        } else if self.region is Err {
            Some(self.region->Err_0)
        } else {
            None
        }
    }

    /// The row holds, under the id `id`, the values bound by
    /// [`insert_statement`] in the order of its column list
    /// `(file_key, bucket, region, song_queue_id)`.
    pub open spec fn stores(&self, id: uuid::Uuid, values: Seq<ParamValue>) -> bool {
        &&& values.len() == 4
        &&& self.id == Ok::<uuid::Uuid, sqlx::Error>(id)
        &&& self.file_key is Ok && values[0] == ParamValue::Text(self.file_key->Ok_0@)
        &&& self.bucket is Ok && values[1] == ParamValue::Text(self.bucket->Ok_0@)
        &&& self.region is Ok && values[2] == ParamValue::Text(self.region->Ok_0@)
        &&& self.song_queue_id is Ok && values[3] == ParamValue::Id(self.song_queue_id->Ok_0)
    }
}

pub const INSERT_SQL: &'static str = "\n        INSERT INTO \"songQueueData\" (file_key, bucket, region, song_queue_id) VALUES($1, $2, $3, $4) RETURNING id;\n        ";

pub const UPDATE_FILE_KEY_SQL: &'static str = "\n        UPDATE \"songQueueData\" SET file_key = $1 WHERE id = $2;\n        ";

pub const SELECT_BY_ID_SQL: &'static str = "\n        SELECT id, file_key, bucket, region, song_queue_id FROM \"songQueueData\"\n        WHERE id = $1\n        ";

pub const SELECT_BY_SONG_QUEUE_ID_SQL: &'static str = "\n        SELECT id, file_key, bucket, region, song_queue_id FROM \"songQueueData\"\n        WHERE song_queue_id = $1\n        ";

proof fn lemma_insert_sql()
    ensures
        numbers_placeholders(INSERT_SQL@, 4),
{
    reveal_strlit("\n        INSERT INTO \"songQueueData\" (file_key, bucket, region, song_queue_id) VALUES($1, $2, $3, $4) RETURNING id;\n        ");
    assert(placeholder_at(INSERT_SQL@, 86, 1));
    assert(placeholder_at(INSERT_SQL@, 90, 2));
    assert(placeholder_at(INSERT_SQL@, 94, 3));
    assert(placeholder_at(INSERT_SQL@, 98, 4));
}

proof fn lemma_update_file_key_sql()
    ensures
        numbers_placeholders(UPDATE_FILE_KEY_SQL@, 2),
{
    reveal_strlit("\n        UPDATE \"songQueueData\" SET file_key = $1 WHERE id = $2;\n        ");
    assert(placeholder_at(UPDATE_FILE_KEY_SQL@, 47, 1));
    assert(placeholder_at(UPDATE_FILE_KEY_SQL@, 61, 2));
}

proof fn lemma_select_by_id_sql()
    ensures
        numbers_placeholders(SELECT_BY_ID_SQL@, 1),
{
    reveal_strlit("\n        SELECT id, file_key, bucket, region, song_queue_id FROM \"songQueueData\"\n        WHERE id = $1\n        ");
    assert(placeholder_at(SELECT_BY_ID_SQL@, 100, 1));
}

proof fn lemma_select_by_song_queue_id_sql()
    ensures
        numbers_placeholders(SELECT_BY_SONG_QUEUE_ID_SQL@, 1),
{
    reveal_strlit("\n        SELECT id, file_key, bucket, region, song_queue_id FROM \"songQueueData\"\n        WHERE song_queue_id = $1\n        ");
    assert(placeholder_at(SELECT_BY_SONG_QUEUE_ID_SQL@, 111, 1));
}

/// Builds the statement that records where the file of the queued song
/// `song_queue_id` is stored and returns the new row's id.
pub fn insert_statement(file_key: &str, bucket: &str, region: &str, song_queue_id: &uuid::Uuid) -> (st: Statement)
    ensures
        st.sql == INSERT_SQL,
        st.execution == Execution::FetchOne,
        st.values() == insert_values(file_key@, bucket@, region@, *song_queue_id),
        st.well_formed(),
        st.params@.len() == 4,
        st.params@[0] matches Param::Text(t) && t@ == file_key@,
        st.params@[1] matches Param::Text(t) && t@ == bucket@,
        st.params@[2] matches Param::Text(t) && t@ == region@,
        st.params@[3] matches Param::Id(v) && v == *song_queue_id,
{
    let mut params: Vec<Param> = Vec::new();
    params.push(Param::Text(file_key.to_owned()));
    params.push(Param::Text(bucket.to_owned()));
    params.push(Param::Text(region.to_owned()));
    params.push(Param::Id(*song_queue_id));
    proof {
        lemma_insert_sql();
    }
    let st = Statement { sql: INSERT_SQL, params, execution: Execution::FetchOne };
    assert(st.values() =~= seq![
        ParamValue::Text(file_key@),
        ParamValue::Text(bucket@),
        ParamValue::Text(region@),
        ParamValue::Id(*song_queue_id),
    ]);
    st
}

/// The result of [`insert_statement`]: the new row's id; the driver's error
/// if the returned id could not be decoded; [`RepoError::RowNotFound`]
/// whatever the database's error was.
pub fn insert_outcome(fetched: Result<ReturnedId, sqlx::Error>) -> (res: Result<uuid::Uuid, RepoError>)
    ensures
        match fetched {
            Ok(row) => match row.id {
                Ok(id) => res == Ok::<uuid::Uuid, RepoError>(id),
                Err(e) => res == Err::<uuid::Uuid, RepoError>(RepoError::Driver(e)),
            },
            Err(_) => res matches Err(RepoError::RowNotFound),
        },
{
    match fetched {
        Ok(row) => match row.id {
            Ok(id) => Ok(id),
            Err(e) => Err(RepoError::Driver(e)),
        },
        Err(_) => Err(RepoError::RowNotFound),
    }
}

/// Builds the statement that sets the file key of the row `id` to `file_key`.
pub fn update_file_key_statement(id: &uuid::Uuid, file_key: &str) -> (st: Statement)
    ensures
        st.sql == UPDATE_FILE_KEY_SQL,
        st.execution == Execution::Execute,
        st.values() == seq![ParamValue::Text(file_key@), ParamValue::Id(*id)],
        st.well_formed(),
        st.params@.len() == 2,
        st.params@[0] matches Param::Text(t) && t@ == file_key@,
        st.params@[1] matches Param::Id(v) && v == *id,
{
    let mut params: Vec<Param> = Vec::new();
    params.push(Param::Text(file_key.to_owned()));
    params.push(Param::Id(*id));
    proof {
        lemma_update_file_key_sql();
    }
    let st = Statement { sql: UPDATE_FILE_KEY_SQL, params, execution: Execution::Execute };
    assert(st.values() =~= seq![ParamValue::Text(file_key@), ParamValue::Id(*id)]);
    st
}

/// The result of [`update_file_key_statement`]: `()` once it ran, however
/// many rows it changed, or [`RepoError::RowNotFound`] whatever the
/// database's error was.
pub fn update_file_key_outcome(executed: Result<(), sqlx::Error>) -> (res: Result<(), RepoError>)
    ensures
        match executed {
            Ok(_) => res == Ok::<(), RepoError>(()),
            Err(_) => res matches Err(RepoError::RowNotFound),
        },
{
    match executed {
        Ok(_) => Ok(()),
        Err(_) => Err(RepoError::RowNotFound),
    }
}

/// Builds the statement that reads the row whose id is `id`.
pub fn get_statement(id: &uuid::Uuid) -> (st: Statement)
    ensures
        st.sql == SELECT_BY_ID_SQL,
        st.execution == Execution::FetchOne,
        st.values() == seq![ParamValue::Id(*id)],
        st.well_formed(),
{
    proof {
        lemma_select_by_id_sql();
    }
    with_id(SELECT_BY_ID_SQL, id, Execution::FetchOne)
}

/// Builds the statement that reads the row of the queued song `song_queue_id`.
pub fn get_with_song_queue_id_statement(song_queue_id: &uuid::Uuid) -> (st: Statement)
    ensures
        st.sql == SELECT_BY_SONG_QUEUE_ID_SQL,
        st.execution == Execution::FetchOne,
        st.values() == seq![ParamValue::Id(*song_queue_id)],
        st.well_formed(),
{
    proof {
        lemma_select_by_song_queue_id_sql();
    }
    with_id(SELECT_BY_SONG_QUEUE_ID_SQL, song_queue_id, Execution::FetchOne)
}

/// `res` is the failure `Driver(e)`.
pub open spec fn fails_with(res: Result<QueueData, RepoError>, e: sqlx::Error) -> bool {
    res == Err::<QueueData, RepoError>(RepoError::Driver(e))
}

/// The result of [`get_statement`] for the row `id`: the database's error as
/// it came; else the error of the first of `file_key`, `bucket`, `region`,
/// `song_queue_id` that did not decode; else `id` with those four columns.
/// The row's own `id` column is not read.
pub fn get_outcome(id: &uuid::Uuid, fetched: Result<QueueDataRow, sqlx::Error>) -> (res: Result<QueueData, RepoError>)
    ensures
        match fetched {
            Err(e) => fails_with(res, e),
            Ok(row) => match row.get_failure() {
                Some(e) => fails_with(res, e),
                None => res matches Ok(found) && {
                    &&& queue_data_view(found) == (
                        *id,
                        row.file_key->Ok_0@,
                        row.bucket->Ok_0@,
                        row.region->Ok_0@,
                        row.song_queue_id->Ok_0,
                    )
                    &&& found.0 == *id
                    &&& found.1@ == row.file_key->Ok_0@
                    &&& found.2@ == row.bucket->Ok_0@
                    &&& found.3@ == row.region->Ok_0@
                    &&& found.4 == row.song_queue_id->Ok_0
                },
            },
        },
{
    match fetched {
        Ok(row) => {
            let file_key = match row.file_key {
                Ok(v) => v,
                Err(e) => return Err(RepoError::Driver(e)),
            };
            let bucket = match row.bucket {
                Ok(v) => v,
                Err(e) => return Err(RepoError::Driver(e)),
            };
            let region = match row.region {
                Ok(v) => v,
                Err(e) => return Err(RepoError::Driver(e)),
            };
            let song_queue_id = match row.song_queue_id {
                Ok(v) => v,
                Err(e) => return Err(RepoError::Driver(e)),
            };
            Ok((*id, file_key, bucket, region, song_queue_id))
        },
        Err(err) => Err(RepoError::Driver(err)),
    }
}

/// The result of [`get_with_song_queue_id_statement`] for the queued song
/// `song_queue_id`: the database's error as it came; else the error of the
/// first of `id`, `file_key`, `bucket`, `region` that did not decode; else
/// those four columns with `song_queue_id`. The row's own `song_queue_id`
/// column is not read.
pub fn get_with_song_queue_id_outcome(song_queue_id: &uuid::Uuid, fetched: Result<QueueDataRow, sqlx::Error>) -> (res: Result<QueueData, RepoError>)
    ensures
        match fetched {
            Err(e) => fails_with(res, e),
            Ok(row) => match row.get_with_song_queue_id_failure() {
                Some(e) => fails_with(res, e),
                None => res matches Ok(found) && {
                    &&& queue_data_view(found) == (
                        row.id->Ok_0,
                        row.file_key->Ok_0@,
                        row.bucket->Ok_0@,
                        row.region->Ok_0@,
                        *song_queue_id,
                    )
                    &&& found.0 == row.id->Ok_0
                    &&& found.1@ == row.file_key->Ok_0@
                    &&& found.2@ == row.bucket->Ok_0@
                    &&& found.3@ == row.region->Ok_0@
                    &&& found.4 == *song_queue_id
                },
            },
        },
{
    match fetched {
        Ok(row) => {
            let id = match row.id {
                Ok(v) => v,
                Err(e) => return Err(RepoError::Driver(e)),
            };
            let file_key = match row.file_key {
                Ok(v) => v,
                Err(e) => return Err(RepoError::Driver(e)),
            };
            let bucket = match row.bucket {
                Ok(v) => v,
                Err(e) => return Err(RepoError::Driver(e)),
            };
            let region = match row.region {
                Ok(v) => v,
                Err(e) => return Err(RepoError::Driver(e)),
            };
            Ok((id, file_key, bucket, region, *song_queue_id))
        },
        Err(err) => Err(RepoError::Driver(err)),
    }
}

/// A row that holds what [`insert_statement`] bound, under the id the
/// database gave it, is read back by both lookups as the values inserted:
/// no column fails to decode, and the lookups' results are the id, the file
/// key, the bucket, the region and the queued song that were inserted.
pub proof fn lemma_inserted_data_reads_back(
    row: QueueDataRow,
    id: uuid::Uuid,
    file_key: Seq<char>,
    bucket: Seq<char>,
    region: Seq<char>,
    song_queue_id: uuid::Uuid,
)
    requires
        row.stores(id, insert_values(file_key, bucket, region, song_queue_id)),
    ensures
        row.get_failure() is None,
        row.get_with_song_queue_id_failure() is None,
        (id, row.file_key->Ok_0@, row.bucket->Ok_0@, row.region->Ok_0@, row.song_queue_id->Ok_0)
            == (id, file_key, bucket, region, song_queue_id),
        (row.id->Ok_0, row.file_key->Ok_0@, row.bucket->Ok_0@, row.region->Ok_0@, song_queue_id)
            == (id, file_key, bucket, region, song_queue_id),
{
}

/// The lookup by id reports the error of `file_key` if it did not decode,
/// else that of `bucket`, else that of `region`, else that of
/// `song_queue_id`, and none if all four decoded; the lookup by queued song
/// does the same over `id`, `file_key`, `bucket`, `region`.
pub proof fn lemma_lookups_report_the_first_failure(row: QueueDataRow)
    ensures
        row.file_key is Err ==> row.get_failure() == Some(row.file_key->Err_0),
        row.file_key is Ok && row.bucket is Err ==> row.get_failure() == Some(row.bucket->Err_0),
        row.file_key is Ok && row.bucket is Ok && row.region is Err
            ==> row.get_failure() == Some(row.region->Err_0),
        row.file_key is Ok && row.bucket is Ok && row.region is Ok && row.song_queue_id is Err
            ==> row.get_failure() == Some(row.song_queue_id->Err_0),
        row.get_failure() is None <==> (row.file_key is Ok && row.bucket is Ok && row.region is Ok
            && row.song_queue_id is Ok),
        row.id is Err ==> row.get_with_song_queue_id_failure() == Some(row.id->Err_0),
        row.id is Ok && row.file_key is Err
            ==> row.get_with_song_queue_id_failure() == Some(row.file_key->Err_0),
        row.id is Ok && row.file_key is Ok && row.bucket is Err
            ==> row.get_with_song_queue_id_failure() == Some(row.bucket->Err_0),
        row.id is Ok && row.file_key is Ok && row.bucket is Ok && row.region is Err
            ==> row.get_with_song_queue_id_failure() == Some(row.region->Err_0),
        row.get_with_song_queue_id_failure() is None <==> (row.id is Ok && row.file_key is Ok
            && row.bucket is Ok && row.region is Ok),
{
}

/// A lookup fails with `e` exactly when its result is the driver error `e`.
pub proof fn lemma_fails_with_is_the_driver_error(res: Result<QueueData, RepoError>, e: sqlx::Error)
    ensures
        fails_with(res, e) <==> res == Err::<QueueData, RepoError>(RepoError::Driver(e)),
{
}

/// A stored file's view is its components, each as it is.
pub proof fn lemma_queue_data_view_is_its_components(found: QueueData)
    ensures
        queue_data_view(found).0 == found.0,
        queue_data_view(found).1 == found.1@,
        queue_data_view(found).2 == found.2@,
        queue_data_view(found).3 == found.3@,
        queue_data_view(found).4 == found.4,
{
}

/// Inserting binds each value at the placeholder of its column in
/// `(file_key, bucket, region, song_queue_id)`.
pub proof fn lemma_insert_binds_each_value_at_its_column(
    file_key: Seq<char>,
    bucket: Seq<char>,
    region: Seq<char>,
    song_queue_id: uuid::Uuid,
)
    ensures
        insert_values(file_key, bucket, region, song_queue_id).len() == 4,
        insert_values(file_key, bucket, region, song_queue_id)[0] == ParamValue::Text(file_key),
        insert_values(file_key, bucket, region, song_queue_id)[1] == ParamValue::Text(bucket),
        insert_values(file_key, bucket, region, song_queue_id)[2] == ParamValue::Text(region),
        insert_values(file_key, bucket, region, song_queue_id)[3] == ParamValue::Id(song_queue_id),
{
}

} // verus!
