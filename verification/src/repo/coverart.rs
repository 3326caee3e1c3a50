//! Cover art of stored songs: the `coverart` table.

use vstd::prelude::*;
use crate::error::RepoError;
use crate::repo::ReturnedId;
use crate::statement::{numbers_placeholders, placeholder_at, with_id, Execution, Param, ParamValue, Statement};

verus! {

/// A song's cover art. `data` holds the image itself when it has been
/// loaded; what is read from the table leaves it empty.
#[derive(Debug)]
pub struct CoverArt {
    pub id: uuid::Uuid,
    pub title: String,
    pub directory: String,
    pub filename: String,
    pub file_type: String,
    pub file_key: String,
    pub data: Vec<u8>,
    pub song_id: uuid::Uuid,
}

/// What a [`CoverArt`] is, in specifications.
pub struct CoverArtView {
    pub id: uuid::Uuid,
    pub title: Seq<char>,
    pub directory: Seq<char>,
    pub filename: Seq<char>,
    pub file_type: Seq<char>,
    pub file_key: Seq<char>,
    pub data: Seq<u8>,
    pub song_id: uuid::Uuid,
}

impl View for CoverArt {
    type V = CoverArtView;

    open spec fn view(&self) -> CoverArtView {
        CoverArtView {
            id: self.id,
            title: self.title@,
            directory: self.directory@,
            filename: self.filename@,
            file_type: self.file_type@,
            file_key: self.file_key@,
            data: self.data@,
            song_id: self.song_id,
        }
    }
}

/// A `coverart` row as the driver decoded it: one result per column.
#[derive(Debug)]
pub struct CoverArtRow {
    pub id: Result<uuid::Uuid, sqlx::Error>,
    pub title: Result<String, sqlx::Error>,
    pub directory: Result<String, sqlx::Error>,
    pub filename: Result<String, sqlx::Error>,
    pub file_type: Result<String, sqlx::Error>,
    pub file_key: Result<String, sqlx::Error>,
    pub song_id: Result<uuid::Uuid, sqlx::Error>,
}

impl CoverArtRow {
    /// Every column decoded.
    pub open spec fn is_decoded(&self) -> bool {
        &&& self.id is Ok
        &&& self.title is Ok
        &&& self.directory is Ok
        &&& self.filename is Ok
        &&& self.file_type is Ok
        &&& self.file_key is Ok
        &&& self.song_id is Ok
    }

    /// The cover art that a decoded row stands for, with no image data.
    pub open spec fn cover_art(&self) -> CoverArtView {
        CoverArtView {
            id: self.id->Ok_0,
            title: self.title->Ok_0@,
            directory: self.directory->Ok_0@,
            filename: self.filename->Ok_0@,
            file_type: self.file_type->Ok_0@,
            file_key: self.file_key->Ok_0@,
            data: Seq::empty(),
            song_id: self.song_id->Ok_0,
        }
    }
}

/// The values that [`create_statement`] binds, in placeholder order.
pub open spec fn create_values(coverart: CoverArtView, song_id: uuid::Uuid) -> Seq<ParamValue> {
    seq![
        ParamValue::Text(coverart.title),
        ParamValue::Text(coverart.directory),
        ParamValue::Text(coverart.filename),
        ParamValue::Text(coverart.file_type),
        ParamValue::Text(coverart.file_key),
        ParamValue::Id(song_id),
    ]
}

impl CoverArtRow {
    /// The row holds, under the id `id`, the values bound by
    /// [`create_statement`] in the order of its column list
    /// `(title, directory, filename, file_type, file_key, song_id)`.
    pub open spec fn stores(&self, id: uuid::Uuid, values: Seq<ParamValue>) -> bool {
        &&& values.len() == 6
        &&& self.id == Ok::<uuid::Uuid, sqlx::Error>(id)
        &&& self.title is Ok && values[0] == ParamValue::Text(self.title->Ok_0@)
        &&& self.directory is Ok && values[1] == ParamValue::Text(self.directory->Ok_0@)
        &&& self.filename is Ok && values[2] == ParamValue::Text(self.filename->Ok_0@)
        &&& self.file_type is Ok && values[3] == ParamValue::Text(self.file_type->Ok_0@)
        &&& self.file_key is Ok && values[4] == ParamValue::Text(self.file_key->Ok_0@)
        &&& self.song_id is Ok && values[5] == ParamValue::Id(self.song_id->Ok_0)
    }
}

pub const INSERT_SQL: &'static str = "\n        INSERT INTO \"coverart\" (title, directory, filename, file_type, file_key, song_id) VALUES($1, $2, $3, $4, $5, $6) RETURNING id;\n        ";

pub const SELECT_BY_ID_SQL: &'static str = "\n        SELECT id, title, directory, filename, file_type, file_key, song_id FROM \"coverart\" WHERE id = $1;\n        ";

pub const SELECT_BY_SONG_ID_SQL: &'static str = "\n        SELECT id, title, directory, filename, file_type, file_key, song_id FROM \"coverart\" WHERE song_id = $1;\n        ";

pub const DELETE_SQL: &'static str = "\n        DELETE FROM \"coverart\"\n        WHERE id = $1\n        RETURNING id, title, directory, filename, file_type, file_key, song_id\n        ";

proof fn lemma_insert_sql()
    ensures
        numbers_placeholders(INSERT_SQL@, 6),
{
    reveal_strlit("\n        INSERT INTO \"coverart\" (title, directory, filename, file_type, file_key, song_id) VALUES($1, $2, $3, $4, $5, $6) RETURNING id;\n        ");
    let s = INSERT_SQL@;
    assert(placeholder_at(s, 98, 1));
    assert(placeholder_at(s, 102, 2));
    assert(placeholder_at(s, 106, 3));
    assert(placeholder_at(s, 110, 4));
    assert(placeholder_at(s, 114, 5));
    assert(placeholder_at(s, 118, 6));
}

/// Builds the statement that stores `coverart` for the song `song_id` and
/// returns the new row's id. The image data is not stored.
pub fn create_statement(coverart: &CoverArt, song_id: &uuid::Uuid) -> (st: Statement)
    ensures
        st.sql == INSERT_SQL,
        st.execution == Execution::FetchOne,
        st.values() == create_values(coverart@, *song_id),
        st.well_formed(),
        st.params@.len() == 6,
        st.params@[0] matches Param::Text(t) && t@ == coverart.title@,
        st.params@[1] matches Param::Text(t) && t@ == coverart.directory@,
        st.params@[2] matches Param::Text(t) && t@ == coverart.filename@,
        st.params@[3] matches Param::Text(t) && t@ == coverart.file_type@,
        st.params@[4] matches Param::Text(t) && t@ == coverart.file_key@,
        st.params@[5] matches Param::Id(v) && v == *song_id,
{
    let mut params: Vec<Param> = Vec::new();
    params.push(Param::Text(coverart.title.clone()));
    params.push(Param::Text(coverart.directory.clone()));
    params.push(Param::Text(coverart.filename.clone()));
    params.push(Param::Text(coverart.file_type.clone()));
    params.push(Param::Text(coverart.file_key.clone()));
    params.push(Param::Id(*song_id));
    proof {
        lemma_insert_sql();
    }
    let st = Statement { sql: INSERT_SQL, params, execution: Execution::FetchOne };
    assert(st.values() =~= seq![
        ParamValue::Text(coverart.title@),
        ParamValue::Text(coverart.directory@),
        ParamValue::Text(coverart.filename@),
        ParamValue::Text(coverart.file_type@),
        ParamValue::Text(coverart.file_key@),
        ParamValue::Id(*song_id),
    ]);
    st
}

/// The result of [`create_statement`]: the new row's id, or
/// [`RepoError::RowNotFound`] whatever the database's error was.
pub fn create_outcome(fetched: Result<ReturnedId, sqlx::Error>) -> (res: Result<uuid::Uuid, RepoError>)
    requires
        fetched matches Ok(row) ==> row.id is Ok,
    ensures
        match fetched {
            Ok(row) => res == Ok::<uuid::Uuid, RepoError>(row.id->Ok_0),
            Err(_) => res matches Err(RepoError::RowNotFound),
        },
{
    match fetched {
        Ok(row) => Ok(row.id.unwrap()),
        Err(_) => Err(RepoError::RowNotFound),
    }
}

proof fn lemma_select_by_id_sql()
    ensures
        numbers_placeholders(SELECT_BY_ID_SQL@, 1),
{
    reveal_strlit("\n        SELECT id, title, directory, filename, file_type, file_key, song_id FROM \"coverart\" WHERE id = $1;\n        ");
    assert(placeholder_at(SELECT_BY_ID_SQL@, 104, 1));
}

proof fn lemma_select_by_song_id_sql()
    ensures
        numbers_placeholders(SELECT_BY_SONG_ID_SQL@, 1),
{
    reveal_strlit("\n        SELECT id, title, directory, filename, file_type, file_key, song_id FROM \"coverart\" WHERE song_id = $1;\n        ");
    assert(placeholder_at(SELECT_BY_SONG_ID_SQL@, 109, 1));
}

proof fn lemma_delete_sql()
    ensures
        numbers_placeholders(DELETE_SQL@, 1),
{
    reveal_strlit("\n        DELETE FROM \"coverart\"\n        WHERE id = $1\n        RETURNING id, title, directory, filename, file_type, file_key, song_id\n        ");
    assert(placeholder_at(DELETE_SQL@, 51, 1));
}

/// Builds the statement that reads the cover art whose id is `id`.
pub fn get_coverart_statement(id: &uuid::Uuid) -> (st: Statement)
    ensures
        st.sql == SELECT_BY_ID_SQL,
        st.execution == Execution::FetchOne,
        st.values() == seq![ParamValue::Id(*id)],
        st.well_formed(),
{
    proof {
        lemma_select_by_id_sql();
    }
    with_id(SELECT_BY_ID_SQL, id, Execution::FetchOne)
}

/// Builds the statement that reads the cover art of the song `song_id`.
pub fn get_coverart_with_song_id_statement(song_id: &uuid::Uuid) -> (st: Statement)
    ensures
        st.sql == SELECT_BY_SONG_ID_SQL,
        st.execution == Execution::FetchOne,
        st.values() == seq![ParamValue::Id(*song_id)],
        st.well_formed(),
{
    proof {
        lemma_select_by_song_id_sql();
    }
    with_id(SELECT_BY_SONG_ID_SQL, song_id, Execution::FetchOne)
}

/// Builds the statement that deletes the cover art whose id is `id` and
/// returns the deleted row.
pub fn delete_coverart_statement(id: &uuid::Uuid) -> (st: Statement)
    ensures
        st.sql == DELETE_SQL,
        st.execution == Execution::FetchOne,
        st.values() == seq![ParamValue::Id(*id)],
        st.well_formed(),
{
    proof {
        lemma_delete_sql();
    }
    with_id(DELETE_SQL, id, Execution::FetchOne)
}

/// The cover art that a fully decoded row holds; its `data` is empty.
pub fn parse_row(row: CoverArtRow) -> (coverart: CoverArt)
    requires
        row.is_decoded(),
    ensures
        coverart@ == row.cover_art(),
        coverart.id == row.id->Ok_0,
        coverart.title@ == row.title->Ok_0@,
        coverart.directory@ == row.directory->Ok_0@,
        coverart.filename@ == row.filename->Ok_0@,
        coverart.file_type@ == row.file_type->Ok_0@,
        coverart.file_key@ == row.file_key->Ok_0@,
        coverart.data@.len() == 0,
        coverart.song_id == row.song_id->Ok_0,
{
    let coverart = CoverArt {
        id: row.id.unwrap(),
        title: row.title.unwrap(),
        directory: row.directory.unwrap(),
        filename: row.filename.unwrap(),
        file_type: row.file_type.unwrap(),
        file_key: row.file_key.unwrap(),
        data: Vec::new(),
        song_id: row.song_id.unwrap(),
    };
    assert(coverart.data@ =~= Seq::<u8>::empty());
    coverart
}

/// The result of the statements of [`get_coverart_statement`],
/// [`get_coverart_with_song_id_statement`] and [`delete_coverart_statement`]:
/// the cover art the row holds, or [`RepoError::RowNotFound`] whatever the
/// database's error was.
pub fn coverart_outcome(fetched: Result<CoverArtRow, sqlx::Error>) -> (res: Result<CoverArt, RepoError>)
    requires
        fetched matches Ok(row) ==> row.is_decoded(),
    ensures
        match fetched {
            Ok(row) => res matches Ok(coverart) && {
                &&& coverart@ == row.cover_art()
                &&& coverart.id == row.id->Ok_0
                &&& coverart.title@ == row.title->Ok_0@
                &&& coverart.directory@ == row.directory->Ok_0@
                &&& coverart.filename@ == row.filename->Ok_0@
                &&& coverart.file_type@ == row.file_type->Ok_0@
                &&& coverart.file_key@ == row.file_key->Ok_0@
                &&& coverart.data@.len() == 0
                &&& coverart.song_id == row.song_id->Ok_0
            },
            Err(_) => res matches Err(RepoError::RowNotFound),
        },
{
    match fetched {
        Ok(row) => Ok(parse_row(row)),
        Err(_) => Err(RepoError::RowNotFound),
    }
}

/// A row that holds what [`create_statement`] bound, under the id the
/// database gave it, reads back as the cover art that was created: every
/// column decodes, and the cover art is the one given, with that id, for the
/// song given, and with no image data.
pub proof fn lemma_created_coverart_reads_back(
    row: CoverArtRow,
    id: uuid::Uuid,
    coverart: CoverArtView,
    song_id: uuid::Uuid,
)
    requires
        row.stores(id, create_values(coverart, song_id)),
    ensures
        row.is_decoded(),
        row.cover_art() == (CoverArtView { id, data: Seq::empty(), song_id, ..coverart }),
{
}

/// A cover art's view is its fields, each as it is.
pub proof fn lemma_coverart_view_is_its_fields(coverart: CoverArt)
    ensures
        coverart@.id == coverart.id,
        coverart@.title == coverart.title@,
        coverart@.directory == coverart.directory@,
        coverart@.filename == coverart.filename@,
        coverart@.file_type == coverart.file_type@,
        coverart@.file_key == coverart.file_key@,
        coverart@.data == coverart.data@,
        coverart@.song_id == coverart.song_id,
{
}

/// Reading a row takes every field from the column of the same name, for
/// every row whatever its file type, and leaves the image data empty.
pub proof fn lemma_read_takes_each_field_from_its_column(row: CoverArtRow)
    ensures
        row.cover_art().id == row.id->Ok_0,
        row.cover_art().title == row.title->Ok_0@,
        row.cover_art().directory == row.directory->Ok_0@,
        row.cover_art().filename == row.filename->Ok_0@,
        row.cover_art().file_type == row.file_type->Ok_0@,
        row.cover_art().file_key == row.file_key->Ok_0@,
        row.cover_art().data.len() == 0,
        row.cover_art().song_id == row.song_id->Ok_0,
{
}

/// Creating binds, for every cover art whatever its file type, each field
/// at the placeholder of its column in `(title, directory, filename,
/// file_type, file_key, song_id)`: the title first, the filename third.
pub proof fn lemma_create_binds_each_field_at_its_column(coverart: CoverArtView, song_id: uuid::Uuid)
    ensures
        create_values(coverart, song_id).len() == 6,
        create_values(coverart, song_id)[0] == ParamValue::Text(coverart.title),
        create_values(coverart, song_id)[1] == ParamValue::Text(coverart.directory),
        create_values(coverart, song_id)[2] == ParamValue::Text(coverart.filename),
        create_values(coverart, song_id)[3] == ParamValue::Text(coverart.file_type),
        create_values(coverart, song_id)[4] == ParamValue::Text(coverart.file_key),
        create_values(coverart, song_id)[5] == ParamValue::Id(song_id),
{
}

/// Two cover arts that differ in one field only give create statements that
/// differ in the value bound for that field's column only: here, changing
/// the title changes the first value and no other.
pub proof fn lemma_create_title_changes_only_first_value(
    a: CoverArtView,
    b: CoverArtView,
    song_id: uuid::Uuid,
)
    requires
        a.directory == b.directory,
        a.filename == b.filename,
        a.file_type == b.file_type,
        a.file_key == b.file_key,
    ensures
        forall|i: int| 1 <= i < 6 ==> create_values(a, song_id)[i] == create_values(b, song_id)[i],
        create_values(a, song_id)[0] == create_values(b, song_id)[0] <==> a.title == b.title,
{
}

} // verus!
