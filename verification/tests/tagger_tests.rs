use tagger::{App, FileID, TaggerError};

type TR = Result<(), TaggerError>;

fn test_app() -> Result<App, TaggerError> {
    App::init_in_memory()
}

#[test]
fn test_get_file_id() -> TR {
    let mut app = test_app()?;
    let filename = "abc";
    assert!(app.get_file(filename)?.is_none());
    app.create_file(filename).unwrap();
    assert!(app.get_file(filename)?.is_some());
    Ok(())
}

#[test]
fn test_get_tag_id() -> TR {
    let mut app = test_app()?;
    let tagname = "abc";
    assert!(app.get_tag(tagname)?.is_none());
    app.create_tag(tagname).unwrap();
    assert!(app.get_tag(tagname)?.is_some());
    Ok(())
}

#[test]
fn tag_a_file() -> TR {
    let mut app = test_app()?;
    let filename = "abc";
    let tagname = "cba";
    let file_id = app.create_file(tagname)?;
    let tag_id = app.create_tag(filename)?;
    app.tag_file(tag_id, file_id).unwrap();
    Ok(())
}

#[test]
fn get_files_for_tag() -> TR {
    let mut app = test_app()?;
    let a = app.create_file("a")?;
    println!("A ID: {:?}", a);
    let b = app.create_file("b")?;
    println!("B ID: {:?}", b);
    let c = app.create_file("c")?;
    println!("C ID: {:?}", c);
    let tag = app.create_tag("tag")?;

    app.tag_file(tag, a).unwrap();
    app.tag_file(tag, b).unwrap();

    let res = app.get_files_for_tag(tag)?;
    println!("Res: {:?}", res);
    let ids: Vec<FileID> = res.into_iter().map(|f| f.id).collect();
    println!("Ids: {:?}", ids);
    assert!(ids.contains(&a));
    assert!(ids.contains(&b));
    assert!(ids.contains(&c) == false);

    Ok(())
}

#[test]
fn migrations_test() {
    assert!(tagger::migrations_valid());
}

#[test]
fn files_for_tag_returns_names() -> TR {
    let mut app = test_app()?;
    let a = app.create_file("a")?;
    let b = app.create_file("b")?;
    let _c = app.create_file("c")?;
    let tag = app.create_tag("tag")?;
    app.tag_file(tag, a)?;
    app.tag_file(tag, b)?;

    let res = app.get_files_for_tag(tag)?;
    assert_eq!(res.len(), 2);
    for f in &res {
        assert_eq!(f.last_seen_at, None);
        assert_eq!(f.orphaned_at, None);
    }
    let mut names: Vec<String> = res.iter().map(|f| f.file_name.clone()).collect();
    names.sort();
    assert_eq!(names, vec!["a".to_string(), "b".to_string()]);
    Ok(())
}

#[test]
fn duplicate_association_returns_row_twice() -> TR {
    let mut app = test_app()?;
    let a = app.create_file("a")?;
    let b = app.create_file("b")?;
    let tag = app.create_tag("tag")?;
    app.tag_file(tag, a)?;
    app.tag_file(tag, a)?;
    app.tag_file(tag, b)?;

    let res = app.get_files_for_tag(tag)?;
    assert_eq!(res.len(), 3);
    let ids: Vec<FileID> = res.into_iter().map(|f| f.id).collect();
    assert_eq!(ids.iter().filter(|id| **id == a).count(), 2);
    assert_eq!(ids.iter().filter(|id| **id == b).count(), 1);
    Ok(())
}

#[test]
fn created_ids_are_returned_by_lookup() -> TR {
    let mut app = test_app()?;
    let fid = app.create_file("notes.txt")?;
    assert_eq!(app.get_file("notes.txt")?, Some(fid));
    let tid = app.create_tag("urgent")?;
    assert_eq!(app.get_tag("urgent")?, Some(tid));
    Ok(())
}

#[test]
fn duplicate_names_create_distinct_rows() -> TR {
    let mut app = test_app()?;
    let first = app.create_file("dup")?;
    let second = app.create_file("dup")?;
    assert_ne!(first, second);
    let found = app.get_file("dup")?.unwrap();
    assert!(found == first || found == second);
    Ok(())
}

#[test]
fn migrations_are_idempotent() -> TR {
    let mut app = test_app()?;
    let fid = app.create_file("kept.txt")?;
    app.apply_migrations()?;
    app.apply_migrations()?;
    assert_eq!(app.get_file("kept.txt")?, Some(fid));
    Ok(())
}

#[test]
fn init_on_unreachable_path_is_database_error() {
    let r = App::init("/nonexistent_tagger_dir/sub/data.sqlite3");
    assert!(matches!(r, Err(TaggerError::DatabaseError)));
}

#[test]
fn init_on_newer_schema_is_directory_error() {
    let path = "/tmp/tagger_newer_schema_test.sqlite3";
    let conn = rusqlite::Connection::open(path).unwrap();
    conn.pragma_update(None, "user_version", 999).unwrap();
    drop(conn);
    let r = App::init(path);
    assert!(matches!(r, Err(TaggerError::DirectoryError)));
}

#[test]
fn init_on_file_path_works() -> TR {
    let mut app = App::init("/tmp/tagger_file_path_test.sqlite3")?;
    app.create_file("on_disk.txt")?;
    assert!(app.get_file("on_disk.txt")?.is_some());
    Ok(())
}

#[test]
fn path_to_string_keeps_unicode_paths() {
    let p = std::path::PathBuf::from("some/dir/file.txt");
    assert_eq!(tagger::path_to_string(p), Some("some/dir/file.txt".to_string()));
}
