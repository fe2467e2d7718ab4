use clipboard_manager::export::{export_csv, EXPORT_DONE_MESSAGE, EXPORT_PATH};
use clipboard_manager::store::{DATABASE_URL, DB_PATH, RECENT_SQL};

fn entries(items: &[(i32, &str)]) -> Vec<(i32, String)> {
    items.iter().map(|(id, s)| (*id, s.to_string())).collect()
}

fn reference(rows: &[(i32, String)]) -> Vec<u8> {
    let mut w = csv::Writer::from_writer(Vec::new());
    for (_, content) in rows {
        w.write_record(&[content]).unwrap();
    }
    w.into_inner().unwrap()
}

fn bytes(rows: &[(i32, &str)]) -> Vec<u8> {
    match export_csv(&entries(rows)) {
        Ok(b) => b,
        Err(_) => panic!("export failed"),
    }
}

#[test]
fn plain_texts_are_one_per_line() {
    assert_eq!(bytes(&[(2, "second"), (1, "first")]), b"second\nfirst\n".to_vec());
}

#[test]
fn special_texts_are_quoted() {
    assert_eq!(bytes(&[(1, "a,b")]), b"\"a,b\"\n".to_vec());
    assert_eq!(bytes(&[(1, "say \"hi\"")]), b"\"say \"\"hi\"\"\"\n".to_vec());
    assert_eq!(bytes(&[(1, "two\nlines")]), b"\"two\nlines\"\n".to_vec());
    assert_eq!(bytes(&[(1, "cr\rhere")]), b"\"cr\rhere\"\n".to_vec());
}

#[test]
fn empty_text_is_an_empty_quoted_field() {
    assert_eq!(bytes(&[(1, "")]), b"\"\"\n".to_vec());
}

#[test]
fn no_rows_no_bytes() {
    assert!(bytes(&[]).is_empty());
}

#[test]
fn export_is_the_concatenation_of_its_parts() {
    let a = bytes(&[(3, "x,y")]);
    let b = bytes(&[(2, "plain"), (1, "")]);
    let all = bytes(&[(3, "x,y"), (2, "plain"), (1, "")]);
    assert_eq!(all, [a, b].concat());
}

#[test]
fn export_matches_the_csv_writer() {
    let rows = entries(&[(4, "ünïcode, text"), (3, "tab\there"), (2, "\"q\""), (1, "")]);
    assert_eq!(export_csv(&rows).ok().unwrap(), reference(&rows));
}

#[test]
fn export_names() {
    assert_eq!(EXPORT_PATH, "clipboard_export.csv");
    assert_eq!(EXPORT_DONE_MESSAGE, format!("Clipboard history exported to {}", EXPORT_PATH));
}

#[test]
fn database_names() {
    assert_eq!(DATABASE_URL, format!("sqlite://{}", DB_PATH));
    assert!(RECENT_SQL.ends_with("ORDER BY id DESC LIMIT 50"));
}

#[test]
fn export_reads_back_with_a_csv_reader() {
    let rows = entries(&[(5, "a,b"), (4, "say \"hi\""), (3, "two\nlines"), (2, ""), (1, "plain")]);
    let bytes = export_csv(&rows).ok().unwrap();
    let mut reader = csv::ReaderBuilder::new().has_headers(false).from_reader(bytes.as_slice());
    let back: Vec<String> = reader
        .records()
        .map(|r| r.unwrap().get(0).unwrap().to_string())
        .collect();
    let texts: Vec<String> = rows.iter().map(|(_, c)| c.clone()).collect();
    assert_eq!(back, texts);
}
