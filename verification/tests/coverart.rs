use soaricarus_api::error::RepoError;
use soaricarus_api::repo::coverart::{
    coverart_outcome, create_outcome, create_statement, delete_coverart_statement,
    get_coverart_statement, get_coverart_with_song_id_statement, parse_row, CoverArt,
    CoverArtRow, DELETE_SQL, INSERT_SQL, SELECT_BY_ID_SQL, SELECT_BY_SONG_ID_SQL,
};
use soaricarus_api::repo::ReturnedId;
use soaricarus_api::statement::{Execution, Param, Statement};

fn id(n: u128) -> uuid::Uuid {
    uuid::Uuid::from_u128(n)
}

fn sample() -> CoverArt {
    CoverArt {
        id: uuid::Uuid::nil(),
        title: "Cover".to_string(),
        directory: "art".to_string(),
        filename: "cover.jpeg".to_string(),
        file_type: "jpeg".to_string(),
        file_key: "art/cover.jpeg".to_string(),
        data: vec![1, 2, 3],
        song_id: id(9),
    }
}

fn text(p: &Param) -> &str {
    match p {
        Param::Text(t) => t,
        Param::Id(_) => panic!("expected text"),
    }
}

fn uid(p: &Param) -> uuid::Uuid {
    match p {
        Param::Id(i) => *i,
        Param::Text(_) => panic!("expected id"),
    }
}

/// Checks that the SQL uses `$1` .. `$n`, one per bound value.
fn placeholders_match(st: &Statement) {
    let n = st.params.len();
    for k in 1..=n {
        assert!(st.sql.contains(&format!("${k}")), "missing ${k}");
    }
    assert!(!st.sql.contains(&format!("${}", n + 1)));
    assert_eq!(st.sql.matches('$').count(), n);
}

fn full_row(n: u128, c: &CoverArt) -> CoverArtRow {
    CoverArtRow {
        id: Ok(id(n)),
        title: Ok(c.title.clone()),
        directory: Ok(c.directory.clone()),
        filename: Ok(c.filename.clone()),
        file_type: Ok(c.file_type.clone()),
        file_key: Ok(c.file_key.clone()),
        song_id: Ok(c.song_id),
    }
}

#[test]
fn create_statement_binds_fields_in_column_order() {
    let c = sample();
    let st = create_statement(&c, &id(42));
    assert_eq!(st.sql, INSERT_SQL);
    assert!(st.sql.contains(
        "INSERT INTO \"coverart\" (title, directory, filename, file_type, file_key, song_id) VALUES($1, $2, $3, $4, $5, $6) RETURNING id;"
    ));
    assert_eq!(st.execution, Execution::FetchOne);
    assert_eq!(st.params.len(), 6);
    assert_eq!(text(&st.params[0]), "Cover");
    assert_eq!(text(&st.params[1]), "art");
    assert_eq!(text(&st.params[2]), "cover.jpeg");
    assert_eq!(text(&st.params[3]), "jpeg");
    assert_eq!(text(&st.params[4]), "art/cover.jpeg");
    assert_eq!(uid(&st.params[5]), id(42));
    placeholders_match(&st);
}

#[test]
fn lookup_statements_bind_the_id() {
    let by_id = get_coverart_statement(&id(7));
    assert_eq!(by_id.sql, SELECT_BY_ID_SQL);
    assert!(by_id.sql.contains("WHERE id = $1"));
    assert_eq!(uid(&by_id.params[0]), id(7));
    assert_eq!(by_id.execution, Execution::FetchOne);
    placeholders_match(&by_id);

    let by_song = get_coverart_with_song_id_statement(&id(8));
    assert_eq!(by_song.sql, SELECT_BY_SONG_ID_SQL);
    assert!(by_song.sql.contains("WHERE song_id = $1"));
    assert_eq!(uid(&by_song.params[0]), id(8));
    placeholders_match(&by_song);

    let delete = delete_coverart_statement(&id(9));
    assert_eq!(delete.sql, DELETE_SQL);
    assert!(delete.sql.contains("DELETE FROM \"coverart\""));
    assert_eq!(uid(&delete.params[0]), id(9));
    assert_eq!(delete.execution, Execution::FetchOne);
    placeholders_match(&delete);
}

#[test]
fn create_outcome_returns_the_new_id() {
    let res = create_outcome(Ok(ReturnedId { id: Ok(id(5)) }));
    assert_eq!(res.unwrap(), id(5));
}

#[test]
fn create_outcome_reports_any_failure_as_row_not_found() {
    let res = create_outcome(Err(sqlx::Error::PoolTimedOut));
    assert!(matches!(res, Err(RepoError::RowNotFound)));
}

#[test]
fn parse_row_leaves_data_empty() {
    let c = sample();
    let parsed = parse_row(full_row(3, &c));
    assert_eq!(parsed.id, id(3));
    assert_eq!(parsed.title, "Cover");
    assert_eq!(parsed.directory, "art");
    assert_eq!(parsed.filename, "cover.jpeg");
    assert_eq!(parsed.file_type, "jpeg");
    assert_eq!(parsed.file_key, "art/cover.jpeg");
    assert_eq!(parsed.song_id, id(9));
    assert!(parsed.data.is_empty());
}

#[test]
fn coverart_outcome_reports_any_failure_as_row_not_found() {
    let res = coverart_outcome(Err(sqlx::Error::RowNotFound));
    assert!(matches!(res, Err(RepoError::RowNotFound)));
    let res = coverart_outcome(Err(sqlx::Error::Protocol("broken".to_string())));
    assert!(matches!(res, Err(RepoError::RowNotFound)));
}

#[test]
fn created_coverart_reads_back() {
    let c = sample();
    let st = create_statement(&c, &c.song_id);
    // The row that the insert writes: the bound values in column order.
    let row = CoverArtRow {
        id: Ok(id(77)),
        title: Ok(text(&st.params[0]).to_string()),
        directory: Ok(text(&st.params[1]).to_string()),
        filename: Ok(text(&st.params[2]).to_string()),
        file_type: Ok(text(&st.params[3]).to_string()),
        file_key: Ok(text(&st.params[4]).to_string()),
        song_id: Ok(uid(&st.params[5])),
    };
    let read = coverart_outcome(Ok(row)).unwrap();
    assert_eq!(read.id, id(77));
    assert_eq!(read.title, c.title);
    assert_eq!(read.directory, c.directory);
    assert_eq!(read.filename, c.filename);
    assert_eq!(read.file_type, c.file_type);
    assert_eq!(read.file_key, c.file_key);
    assert_eq!(read.song_id, c.song_id);
    assert!(read.data.is_empty());
}
