use soaricarus_api::error::RepoError;
use soaricarus_api::repo::queue::data::{
    get_outcome, get_statement, get_with_song_queue_id_outcome,
    get_with_song_queue_id_statement, insert_outcome, insert_statement,
    update_file_key_outcome, update_file_key_statement, QueueDataRow, INSERT_SQL,
    SELECT_BY_ID_SQL, SELECT_BY_SONG_QUEUE_ID_SQL, UPDATE_FILE_KEY_SQL,
};
use soaricarus_api::repo::ReturnedId;
use soaricarus_api::statement::{Execution, Param};

fn id(n: u128) -> uuid::Uuid {
    uuid::Uuid::from_u128(n)
}

fn text(p: &Param) -> &str {
    match p {
        Param::Text(t) => t,
        Param::Id(_) => panic!("expected text"),
    }
}

fn uid(p: &Param) -> uuid::Uuid {
    match p {
        Param::Id(i) => *i,
        Param::Text(_) => panic!("expected id"),
    }
}

fn row() -> QueueDataRow {
    QueueDataRow {
        id: Ok(id(1)),
        file_key: Ok("songs/a.flac".to_string()),
        bucket: Ok("music".to_string()),
        region: Ok("garage".to_string()),
        song_queue_id: Ok(id(2)),
    }
}

fn column_named(err: &RepoError) -> Option<String> {
    match err {
        RepoError::Driver(sqlx::Error::ColumnNotFound(name)) => Some(name.clone()),
        _ => None,
    }
}

fn missing(name: &str) -> sqlx::Error {
    sqlx::Error::ColumnNotFound(name.to_string())
}

#[test]
fn data_insert_binds_in_column_order() {
    let st = insert_statement("songs/a.flac", "music", "garage", &id(2));
    assert_eq!(st.sql, INSERT_SQL);
    assert!(st.sql.contains("(file_key, bucket, region, song_queue_id) VALUES($1, $2, $3, $4)"));
    assert_eq!(st.params.len(), 4);
    assert_eq!(text(&st.params[0]), "songs/a.flac");
    assert_eq!(text(&st.params[1]), "music");
    assert_eq!(text(&st.params[2]), "garage");
    assert_eq!(uid(&st.params[3]), id(2));
    assert_eq!(st.execution, Execution::FetchOne);
}

#[test]
fn data_insert_outcome() {
    assert_eq!(insert_outcome(Ok(ReturnedId { id: Ok(id(8)) })).unwrap(), id(8));
    let res = insert_outcome(Err(sqlx::Error::PoolTimedOut));
    assert!(matches!(res, Err(RepoError::RowNotFound)));
    let res = insert_outcome(Ok(ReturnedId { id: Err(missing("id")) }));
    assert_eq!(column_named(&res.unwrap_err()), Some("id".to_string()));
}

#[test]
fn data_update_file_key() {
    let st = update_file_key_statement(&id(5), "songs/b.flac");
    assert_eq!(st.sql, UPDATE_FILE_KEY_SQL);
    assert!(st.sql.contains("SET file_key = $1 WHERE id = $2"));
    assert_eq!(text(&st.params[0]), "songs/b.flac");
    assert_eq!(uid(&st.params[1]), id(5));
    assert_eq!(st.execution, Execution::Execute);
    assert!(update_file_key_outcome(Ok(())).is_ok());
    let res = update_file_key_outcome(Err(sqlx::Error::PoolClosed));
    assert!(matches!(res, Err(RepoError::RowNotFound)));
}

#[test]
fn data_lookup_statements() {
    let st = get_statement(&id(5));
    assert_eq!(st.sql, SELECT_BY_ID_SQL);
    assert!(st.sql.contains("WHERE id = $1"));
    assert_eq!(uid(&st.params[0]), id(5));
    let st = get_with_song_queue_id_statement(&id(6));
    assert_eq!(st.sql, SELECT_BY_SONG_QUEUE_ID_SQL);
    assert!(st.sql.contains("WHERE song_queue_id = $1"));
    assert_eq!(uid(&st.params[0]), id(6));
}

#[test]
fn data_get_returns_the_requested_id() {
    // The row's own id column is not read: the result carries the id asked for.
    let (got_id, file_key, bucket, region, song_queue_id) = get_outcome(&id(99), Ok(row())).unwrap();
    assert_eq!(got_id, id(99));
    assert_eq!(file_key, "songs/a.flac");
    assert_eq!(bucket, "music");
    assert_eq!(region, "garage");
    assert_eq!(song_queue_id, id(2));
}

#[test]
fn data_get_with_song_queue_id_returns_the_requested_song() {
    let (got_id, file_key, bucket, region, song_queue_id) =
        get_with_song_queue_id_outcome(&id(42), Ok(row())).unwrap();
    assert_eq!(got_id, id(1));
    assert_eq!(file_key, "songs/a.flac");
    assert_eq!(bucket, "music");
    assert_eq!(region, "garage");
    assert_eq!(song_queue_id, id(42));
}

#[test]
fn data_get_passes_the_driver_error_on() {
    let res = get_outcome(&id(1), Err(missing("whole row")));
    assert_eq!(column_named(&res.unwrap_err()), Some("whole row".to_string()));
    let res = get_outcome(&id(1), Err(sqlx::Error::RowNotFound));
    assert!(matches!(res, Err(RepoError::Driver(sqlx::Error::RowNotFound))));
}

#[test]
fn data_get_reports_the_first_undecoded_column() {
    let mut r = row();
    r.bucket = Err(missing("bucket"));
    r.song_queue_id = Err(missing("song_queue_id"));
    assert_eq!(column_named(&get_outcome(&id(1), Ok(r)).unwrap_err()), Some("bucket".to_string()));

    let mut r = row();
    r.id = Err(missing("id"));
    r.song_queue_id = Err(missing("song_queue_id"));
    // `get` does not read `id`.
    assert_eq!(
        column_named(&get_outcome(&id(1), Ok(r)).unwrap_err()),
        Some("song_queue_id".to_string())
    );

    let mut r = row();
    r.id = Err(missing("id"));
    r.file_key = Err(missing("file_key"));
    assert_eq!(
        column_named(&get_with_song_queue_id_outcome(&id(2), Ok(r)).unwrap_err()),
        Some("id".to_string())
    );

    let mut r = row();
    r.song_queue_id = Err(missing("song_queue_id"));
    // The lookup by queued song does not read `song_queue_id`.
    assert!(get_with_song_queue_id_outcome(&id(2), Ok(r)).is_ok());
}

#[test]
fn inserted_data_reads_back() {
    let st = insert_statement("songs/c.flac", "music", "garage", &id(12));
    let stored = QueueDataRow {
        id: Ok(id(30)),
        file_key: Ok(text(&st.params[0]).to_string()),
        bucket: Ok(text(&st.params[1]).to_string()),
        region: Ok(text(&st.params[2]).to_string()),
        song_queue_id: Ok(uid(&st.params[3])),
    };
    let by_id = get_outcome(&id(30), Ok(stored)).unwrap();
    assert_eq!(by_id, (id(30), "songs/c.flac".to_string(), "music".to_string(), "garage".to_string(), id(12)));
    let stored = QueueDataRow {
        id: Ok(id(30)),
        file_key: Ok(text(&st.params[0]).to_string()),
        bucket: Ok(text(&st.params[1]).to_string()),
        region: Ok(text(&st.params[2]).to_string()),
        song_queue_id: Ok(uid(&st.params[3])),
    };
    let by_song = get_with_song_queue_id_outcome(&id(12), Ok(stored)).unwrap();
    assert_eq!(by_song, by_id);
}
