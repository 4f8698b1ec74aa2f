use rsdroid::bridge::{pack_result, panic_message};
use rsdroid::mmap::mmap2_page_offset;
use rsdroid::schema::{check_schema, DBErrorKind};
use rsdroid::web::{funcs_file, ts_imported_funcs};

#[test]
fn panic_message_prefers_the_string_slice() {
    assert_eq!(panic_message(Some("a"), Some("b")), "a");
    assert_eq!(panic_message(Some("a"), None), "a");
    assert_eq!(panic_message(None, Some("b")), "b");
    assert_eq!(panic_message(None, None), "unknown panic");
}

#[test]
fn pack_result_fills_one_slot() {
    assert_eq!(pack_result(Ok(vec![1, 2])), (Some(vec![1, 2]), None));
    assert_eq!(pack_result(Err(vec![3])), (None, Some(vec![3])));
    assert_eq!(pack_result(Ok(vec![])), (Some(vec![]), None));
}

#[test]
fn page_offset_of_aligned_offsets() {
    assert_eq!(mmap2_page_offset(0), Some(0));
    assert_eq!(mmap2_page_offset(4096), Some(1));
    assert_eq!(mmap2_page_offset(4096 * 1000), Some(1000));
    assert_eq!(mmap2_page_offset(-8192), Some(-2));
    assert_eq!(mmap2_page_offset(i64::MIN), Some(i64::MIN / 4096));
}

#[test]
fn page_offset_of_unaligned_offsets() {
    assert_eq!(mmap2_page_offset(1), None);
    assert_eq!(mmap2_page_offset(4095), None);
    assert_eq!(mmap2_page_offset(4097), None);
    assert_eq!(mmap2_page_offset(-1), None);
    assert_eq!(mmap2_page_offset(i64::MAX), None);
}

#[test]
fn schema_in_range_is_accepted() {
    assert!(check_schema(11, 11, 11).is_none());
    assert!(check_schema(11, 11, 16).is_none());
    assert!(check_schema(16, 11, 16).is_none());
    assert!(check_schema(0, 0, 255).is_none());
}

#[test]
fn schema_out_of_range_is_refused() {
    assert_eq!(
        check_schema(10, 11, 11),
        Some((DBErrorKind::FileTooOld, "Got Schema10".to_string()))
    );
    assert_eq!(
        check_schema(12, 11, 11),
        Some((DBErrorKind::FileTooNew, "Got Schema12".to_string()))
    );
    assert_eq!(
        check_schema(255, 16, 16),
        Some((DBErrorKind::FileTooNew, "Got Schema255".to_string()))
    );
    // with the bounds crossed, too old is reported first
    assert_eq!(
        check_schema(5, 10, 3),
        Some((DBErrorKind::FileTooOld, "Got Schema5".to_string()))
    );
}

fn import(name: &str, module: &str) -> (String, String) {
    (name.to_string(), module.to_string())
}

#[test]
fn imports_of_the_backend_are_kept() {
    let imports = vec![
        import("importDone", "\"@generated/backend\""),
        import("onMount", "\"svelte\""),
        import("getNote", "\"@generated/backend\""),
        import("x", "@generated/backend"),
        import("y", "'@generated/backend'"),
    ];
    assert_eq!(ts_imported_funcs(&imports), vec!["importDone", "getNote"]);
    assert!(ts_imported_funcs(&[]).is_empty());
}

fn names(list: &[&str]) -> Vec<String> {
    list.iter().map(|s| s.to_string()).collect()
}

#[test]
fn funcs_file_ends_with_a_line_feed() {
    assert_eq!(funcs_file(&names(&["a", "b"])), "a\nb\n");
    assert_eq!(funcs_file(&names(&["a"])), "a\n");
    assert_eq!(funcs_file(&[]), "");
}

#[test]
fn funcs_file_leaves_out_repeats() {
    assert_eq!(funcs_file(&names(&["a", "a", "b", "a"])), "a\nb\na\n");
    assert_eq!(funcs_file(&names(&["a", ""])), "a\n");
    assert_eq!(funcs_file(&names(&["", "a"])), "\na\n");
    assert_eq!(funcs_file(&names(&["", ""])), "");
}
