use rusqlite::Connection;
use servoshell::storage::{
    add_bookmark_to_folder, add_bookmark_with_conn, clear_all_downloads_with_conn,
    clear_all_history_with_conn, clear_history_since_hours_with_conn, count_is_positive,
    create_folder, create_schema, delete_folder, get_all_bookmarks_with_conn, get_all_folders,
    get_bookmarks_in_folder, get_recent_downloads_with_conn, get_recent_history_with_conn,
    get_site_settings_with_conn, hours_back_modifier, is_bookmarked_with_conn,
    like_contains_pattern, record_download_with_conn, record_visit_with_conn, records_from_rows,
    remove_bookmark_with_conn, removed_any, rename_folder, save_site_settings_with_conn,
    search_history_with_conn, settings_or_default, Bookmark, SiteSettings, SqlValue,
};

fn test_db() -> Connection {
    let conn = Connection::open_in_memory().expect("Failed to open in-memory database");
    create_schema(&conn).expect("Failed to create test schema");
    conn
}

#[test]
fn test_bookmark_add_and_query() {
    let db = test_db();
    assert!(!is_bookmarked_with_conn(&db, "https://example.com"));

    assert!(add_bookmark_with_conn(&db, "https://example.com", "Example").is_ok());
    assert!(is_bookmarked_with_conn(&db, "https://example.com"));

    let bookmarks = get_all_bookmarks_with_conn(&db);
    assert_eq!(bookmarks.len(), 1);
    assert_eq!(bookmarks[0].url, "https://example.com");
    assert_eq!(bookmarks[0].title, "Example");
}

#[test]
fn test_bookmark_remove() {
    let db = test_db();
    add_bookmark_with_conn(&db, "https://example.com", "Example").unwrap();
    assert!(is_bookmarked_with_conn(&db, "https://example.com"));

    let removed = remove_bookmark_with_conn(&db, "https://example.com").unwrap();
    assert!(removed > 0);
    assert!(!is_bookmarked_with_conn(&db, "https://example.com"));
    assert_eq!(get_all_bookmarks_with_conn(&db).len(), 0);
}

#[test]
fn test_bookmark_remove_nonexistent() {
    let db = test_db();
    let removed = remove_bookmark_with_conn(&db, "https://nonexistent.com").unwrap();
    assert_eq!(removed, 0);
}

#[test]
fn test_bookmark_upsert_replaces_title() {
    let db = test_db();
    add_bookmark_with_conn(&db, "https://example.com", "Old Title").unwrap();
    add_bookmark_with_conn(&db, "https://example.com", "New Title").unwrap();

    let bookmarks = get_all_bookmarks_with_conn(&db);
    assert_eq!(bookmarks.len(), 1);
    assert_eq!(bookmarks[0].title, "New Title");
}

#[test]
fn test_bookmark_multiple_entries() {
    let db = test_db();
    add_bookmark_with_conn(&db, "https://a.com", "A").unwrap();
    add_bookmark_with_conn(&db, "https://b.com", "B").unwrap();
    add_bookmark_with_conn(&db, "https://c.com", "C").unwrap();

    assert_eq!(get_all_bookmarks_with_conn(&db).len(), 3);
    assert!(is_bookmarked_with_conn(&db, "https://b.com"));
    assert!(!is_bookmarked_with_conn(&db, "https://d.com"));
}

#[test]
fn test_history_record_and_retrieve() {
    let db = test_db();
    record_visit_with_conn(&db, "https://example.com", "Example").unwrap();

    let history = get_recent_history_with_conn(&db, 10);
    assert_eq!(history.len(), 1);
    assert_eq!(history[0].url, "https://example.com");
    assert_eq!(history[0].title, "Example");
    assert_eq!(history[0].visit_count, 1);
}

#[test]
fn test_history_visit_count_increments() {
    let db = test_db();
    record_visit_with_conn(&db, "https://example.com", "Example").unwrap();
    record_visit_with_conn(&db, "https://example.com", "Example Updated").unwrap();

    let history = get_recent_history_with_conn(&db, 10);
    assert_eq!(history.len(), 1);
    assert_eq!(history[0].visit_count, 2);
    assert_eq!(history[0].title, "Example Updated");
}

#[test]
fn test_history_search() {
    let db = test_db();
    record_visit_with_conn(&db, "https://rust-lang.org", "Rust Programming").unwrap();
    record_visit_with_conn(&db, "https://servo.org", "Servo Browser").unwrap();
    record_visit_with_conn(&db, "https://example.com", "Example").unwrap();

    let results = search_history_with_conn(&db, "rust", 10);
    assert_eq!(results.len(), 1);
    assert_eq!(results[0].url, "https://rust-lang.org");

    let results = search_history_with_conn(&db, "servo", 10);
    assert_eq!(results.len(), 1);
    assert_eq!(results[0].url, "https://servo.org");

    let results = search_history_with_conn(&db, "Browser", 10);
    assert_eq!(results.len(), 1);
    assert_eq!(results[0].title, "Servo Browser");
}

#[test]
fn test_history_search_empty_results() {
    let db = test_db();
    record_visit_with_conn(&db, "https://example.com", "Example").unwrap();

    let results = search_history_with_conn(&db, "nonexistent", 10);
    assert_eq!(results.len(), 0);
}

#[test]
fn test_history_clear() {
    let db = test_db();
    record_visit_with_conn(&db, "https://a.com", "A").unwrap();
    record_visit_with_conn(&db, "https://b.com", "B").unwrap();
    assert_eq!(get_recent_history_with_conn(&db, 10).len(), 2);

    clear_all_history_with_conn(&db).unwrap();
    assert_eq!(get_recent_history_with_conn(&db, 10).len(), 0);
}

#[test]
fn test_history_limit() {
    let db = test_db();
    for i in 0..20 {
        record_visit_with_conn(&db, &format!("https://site{}.com", i), &format!("Site {}", i)).unwrap();
    }

    let history = get_recent_history_with_conn(&db, 5);
    assert_eq!(history.len(), 5);
}

#[test]
fn test_download_record_and_retrieve() {
    let db = test_db();
    record_download_with_conn(&db, "https://example.com/file.zip", "file.zip", "/tmp/file.zip", 1024).unwrap();

    let downloads = get_recent_downloads_with_conn(&db, 10);
    assert_eq!(downloads.len(), 1);
    assert_eq!(downloads[0].url, "https://example.com/file.zip");
    assert_eq!(downloads[0].filename, "file.zip");
    assert_eq!(downloads[0].path, "/tmp/file.zip");
    assert_eq!(downloads[0].size_bytes, 1024);
    assert_eq!(downloads[0].status, "complete");
}

#[test]
fn test_download_clear() {
    let db = test_db();
    record_download_with_conn(&db, "https://a.com/a.zip", "a.zip", "/tmp/a.zip", 100).unwrap();
    record_download_with_conn(&db, "https://b.com/b.zip", "b.zip", "/tmp/b.zip", 200).unwrap();
    assert_eq!(get_recent_downloads_with_conn(&db, 10).len(), 2);

    clear_all_downloads_with_conn(&db).unwrap();
    assert_eq!(get_recent_downloads_with_conn(&db, 10).len(), 0);
}

#[test]
fn test_download_limit() {
    let db = test_db();
    for i in 0..15 {
        record_download_with_conn(
            &db,
            &format!("https://example.com/{}.zip", i),
            &format!("{}.zip", i),
            &format!("/tmp/{}.zip", i),
            i * 100,
        )
        .unwrap();
    }

    let downloads = get_recent_downloads_with_conn(&db, 5);
    assert_eq!(downloads.len(), 5);
}

#[test]
fn test_site_settings_defaults_for_unknown_host() {
    let db = test_db();
    let settings = get_site_settings_with_conn(&db, "unknown.com");

    assert_eq!(settings.host, "unknown.com");
    assert!(settings.content_blocking);
    assert!(!settings.cookie_allow);
    assert!(settings.fingerprint_protection);
}

#[test]
fn test_site_settings_save_and_retrieve() {
    let db = test_db();
    let settings = SiteSettings {
        host: "example.com".to_string(),
        content_blocking: false,
        cookie_allow: true,
        fingerprint_protection: false,
    };
    save_site_settings_with_conn(&db, &settings).unwrap();

    let loaded = get_site_settings_with_conn(&db, "example.com");
    assert_eq!(loaded.host, "example.com");
    assert!(!loaded.content_blocking);
    assert!(loaded.cookie_allow);
    assert!(!loaded.fingerprint_protection);
}

#[test]
fn test_site_settings_upsert() {
    let db = test_db();
    let settings = SiteSettings {
        host: "example.com".to_string(),
        content_blocking: true,
        cookie_allow: false,
        fingerprint_protection: true,
    };
    save_site_settings_with_conn(&db, &settings).unwrap();

    let updated = SiteSettings {
        host: "example.com".to_string(),
        content_blocking: false,
        cookie_allow: true,
        fingerprint_protection: false,
    };
    save_site_settings_with_conn(&db, &updated).unwrap();

    let loaded = get_site_settings_with_conn(&db, "example.com");
    assert!(!loaded.content_blocking);
    assert!(loaded.cookie_allow);
    assert!(!loaded.fingerprint_protection);
}

#[test]
fn test_site_settings_multiple_hosts() {
    let db = test_db();
    save_site_settings_with_conn(&db, &SiteSettings {
        host: "a.com".to_string(),
        content_blocking: false,
        cookie_allow: true,
        fingerprint_protection: true,
    })
    .unwrap();
    save_site_settings_with_conn(&db, &SiteSettings {
        host: "b.com".to_string(),
        content_blocking: true,
        cookie_allow: false,
        fingerprint_protection: false,
    })
    .unwrap();

    let a = get_site_settings_with_conn(&db, "a.com");
    let b = get_site_settings_with_conn(&db, "b.com");

    assert!(!a.content_blocking);
    assert!(a.cookie_allow);
    assert!(b.content_blocking);
    assert!(!b.cookie_allow);
}

#[test]
fn search_treats_wildcards_literally() {
    let db = test_db();
    record_visit_with_conn(&db, "https://a.com/100%", "Full").unwrap();
    record_visit_with_conn(&db, "https://b.com/", "Other").unwrap();
    assert_eq!(search_history_with_conn(&db, "%", 10).len(), 1);
    assert_eq!(search_history_with_conn(&db, "_", 10).len(), 0);
}

#[test]
fn like_pattern_escapes_wildcards() {
    assert_eq!(like_contains_pattern("a%b_c\\d"), "%a\\%b\\_c\\\\d%");
    assert_eq!(like_contains_pattern(""), "%%");
}

#[test]
fn hours_modifier_text() {
    assert_eq!(hours_back_modifier(1), "-1 hours");
    assert_eq!(hours_back_modifier(24), "-24 hours");
    assert_eq!(hours_back_modifier(u64::MAX), "-18446744073709551615 hours");
}

#[test]
fn clear_recent_history_keeps_nothing_recent() {
    let db = test_db();
    record_visit_with_conn(&db, "https://a.com", "A").unwrap();
    clear_history_since_hours_with_conn(&db, 1).unwrap();
    assert_eq!(get_recent_history_with_conn(&db, 10).len(), 0);
    record_visit_with_conn(&db, "https://b.com", "B").unwrap();
    clear_history_since_hours_with_conn(&db, 0).unwrap();
    assert_eq!(get_recent_history_with_conn(&db, 10).len(), 0);
}

#[test]
fn folders_create_rename_delete() {
    let db = test_db();
    let id = create_folder(&db, "Work", None).unwrap();
    rename_folder(&db, id, "Job");
    let folders = get_all_folders(&db);
    assert_eq!(folders.len(), 1);
    assert_eq!(folders[0].name, "Job");
    assert_eq!(folders[0].parent_id, None);
    assert!(add_bookmark_to_folder(&db, "https://x.com", "X", Some(id)));
    assert_eq!(get_bookmarks_in_folder(&db, Some(id)).len(), 1);
    assert_eq!(get_bookmarks_in_folder(&db, None).len(), 0);
    delete_folder(&db, id);
    assert!(get_all_folders(&db).is_empty());
    let root = get_bookmarks_in_folder(&db, None);
    assert_eq!(root.len(), 1);
    assert_eq!(root[0].folder_id, None);
}

#[test]
fn removed_any_reads_the_change_count() {
    assert!(removed_any(&Ok(2)));
    assert!(!removed_any(&Ok(0)));
}

#[test]
fn rows_that_do_not_fit_are_skipped() {
    let good = vec![
        SqlValue::Integer(1),
        SqlValue::Text("https://a".to_string()),
        SqlValue::Text("A".to_string()),
        SqlValue::Null,
        SqlValue::Integer(0),
        SqlValue::Text("now".to_string()),
    ];
    let bad = vec![
        SqlValue::Integer(2),
        SqlValue::Text("https://b".to_string()),
        SqlValue::Null,
        SqlValue::Null,
        SqlValue::Integer(0),
        SqlValue::Text("now".to_string()),
    ];
    let rows = vec![Some(bad), None, Some(good)];
    let out: Vec<Bookmark> = records_from_rows(&rows);
    assert_eq!(out.len(), 1);
    assert_eq!(out[0].url, "https://a");
    assert_eq!(out[0].folder_id, None);
}

#[test]
fn count_rows() {
    assert!(count_is_positive(&vec![Some(vec![SqlValue::Integer(3)])]));
    assert!(!count_is_positive(&vec![Some(vec![SqlValue::Integer(0)])]));
    assert!(!count_is_positive(&vec![]));
}

#[test]
fn settings_default_when_no_row() {
    let s = settings_or_default("h.com", &vec![]);
    assert_eq!(s.host, "h.com");
    assert!(s.content_blocking && !s.cookie_allow && s.fingerprint_protection);
    let row = vec![
        SqlValue::Text("h.com".to_string()),
        SqlValue::Integer(0),
        SqlValue::Integer(5),
        SqlValue::Integer(0),
    ];
    let t = settings_or_default("h.com", &vec![Some(row)]);
    assert!(!t.content_blocking && t.cookie_allow && !t.fingerprint_protection);
}
