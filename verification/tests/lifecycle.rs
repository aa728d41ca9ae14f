use hello::error::HelloError;
use hello::state::{HelloBindData, HelloGlobalData, HelloLocalData};
use hello::vtab::{ColumnType, HelloVTab, ResultColumn};

fn bound(name: &str, count: Option<i64>) -> HelloBindData {
    let mut columns: Vec<ResultColumn> = Vec::new();
    HelloVTab::bind(name, count, &mut columns).unwrap()
}

#[test]
fn function_is_registered_as_hello() {
    assert_eq!(HelloVTab::name(), "hello");
}

#[test]
fn one_positional_text_parameter() {
    assert_eq!(HelloVTab::parameters(), Some(vec![ColumnType::Varchar]));
}

#[test]
fn one_named_integer_parameter() {
    assert_eq!(
        HelloVTab::named_parameters(),
        Some(vec![("count".to_string(), ColumnType::Bigint)])
    );
}

#[test]
fn bind_copies_the_name_and_the_count() {
    let data = bound("Alice", Some(3));
    assert_eq!(data.name, Some(b"Alice".to_vec()));
    assert_eq!(data.count, 3);
}

#[test]
fn bind_stores_the_utf8_bytes() {
    let data = bound("Zo\u{eb}", Some(1));
    assert_eq!(data.name, Some(vec![0x5a, 0x6f, 0xc3, 0xab]));
}

#[test]
fn bind_defaults_the_count_to_one() {
    let data = bound("Alice", None);
    assert_eq!(data.count, 1);
    assert_eq!(data.name, bound("Alice", Some(1)).name);
}

#[test]
fn bind_accepts_the_ends_of_the_range() {
    assert_eq!(bound("a", Some(0)).count, 0);
    assert_eq!(bound("a", Some(4294967295)).count, u32::MAX);
}

#[test]
fn bind_declares_one_text_column() {
    let mut columns: Vec<ResultColumn> = Vec::new();
    HelloVTab::bind("Alice", Some(3), &mut columns).unwrap();
    assert_eq!(columns.len(), 1);
    assert_eq!(columns[0].name, "greetings");
    assert_eq!(columns[0].logical_type, ColumnType::Varchar);
}

#[test]
fn bind_appends_to_the_columns_it_is_given() {
    let mut columns = vec![ResultColumn { name: "n".to_string(), logical_type: ColumnType::Bigint }];
    HelloVTab::bind("Alice", None, &mut columns).unwrap();
    assert_eq!(columns.len(), 2);
    assert_eq!(columns[0].name, "n");
    assert_eq!(columns[0].logical_type, ColumnType::Bigint);
    assert_eq!(columns[1].name, "greetings");
    assert_eq!(columns[1].logical_type, ColumnType::Varchar);
}

#[test]
fn bind_rejects_a_negative_count() {
    let mut columns: Vec<ResultColumn> = Vec::new();
    let r = HelloVTab::bind("Alice", Some(-5), &mut columns);
    assert_eq!(r.unwrap_err(), HelloError::InvalidArgument);
    assert!(columns.is_empty());
}

#[test]
fn bind_rejects_a_count_that_does_not_fit() {
    let mut columns: Vec<ResultColumn> = Vec::new();
    let r = HelloVTab::bind("Alice", Some(4294967296), &mut columns);
    assert_eq!(r.unwrap_err(), HelloError::InvalidArgument);
    assert!(columns.is_empty());
}

#[test]
fn bind_rejects_a_name_with_nul() {
    let mut columns: Vec<ResultColumn> = Vec::new();
    let r = HelloVTab::bind("a\0b", Some(2), &mut columns);
    assert_eq!(r.unwrap_err(), HelloError::AllocationError);
    let r = HelloVTab::bind("a\0b", Some(-2), &mut columns);
    assert_eq!(r.unwrap_err(), HelloError::AllocationError);
    assert!(columns.is_empty());
}

#[test]
fn init_starts_producing() {
    assert_eq!(HelloVTab::init(), HelloGlobalData { done: false });
}

#[test]
fn init_local_takes_the_whole_count() {
    let data = bound("Alice", Some(7));
    assert_eq!(HelloVTab::init_local(&data), HelloLocalData { remaining: 7 });
    assert_eq!(HelloVTab::init_local(&data), HelloLocalData { remaining: 7 });
}

#[test]
fn step_emits_one_row_and_counts_down() {
    let data = bound("Alice", Some(3));
    let mut global = HelloVTab::init();
    let mut local = HelloVTab::init_local(&data);

    assert_eq!(HelloVTab::func(&data, &mut global, &mut local), Ok(vec!["Hello Alice 3".to_string()]));
    assert_eq!(local, HelloLocalData { remaining: 2 });
    assert_eq!(global, HelloGlobalData { done: false });

    assert_eq!(HelloVTab::func(&data, &mut global, &mut local), Ok(vec!["Hello Alice 2".to_string()]));
    assert_eq!(local, HelloLocalData { remaining: 1 });
    assert_eq!(global, HelloGlobalData { done: false });

    assert_eq!(HelloVTab::func(&data, &mut global, &mut local), Ok(vec!["Hello Alice 1".to_string()]));
    assert_eq!(local, HelloLocalData { remaining: 0 });
    assert_eq!(global, HelloGlobalData { done: true });

    assert_eq!(HelloVTab::func(&data, &mut global, &mut local), Ok(Vec::new()));
}

#[test]
fn exhaustion_is_final() {
    let data = bound("Alice", Some(2));
    let mut global = HelloVTab::init();
    let mut local = HelloVTab::init_local(&data);
    while !HelloVTab::func(&data, &mut global, &mut local).unwrap().is_empty() {}
    for _ in 0..25 {
        assert_eq!(HelloVTab::func(&data, &mut global, &mut local), Ok(Vec::new()));
        assert_eq!(global, HelloGlobalData { done: true });
        assert_eq!(local, HelloLocalData { remaining: 0 });
    }
}

#[test]
fn exhausted_stream_leaves_a_budget_alone() {
    let data = bound("Alice", Some(5));
    let mut global = HelloGlobalData { done: true };
    let mut local = HelloLocalData { remaining: 5 };
    assert_eq!(HelloVTab::func(&data, &mut global, &mut local), Ok(Vec::new()));
    assert_eq!(global, HelloGlobalData { done: true });
    assert_eq!(local, HelloLocalData { remaining: 5 });
}

#[test]
fn spent_budget_exhausts_the_stream() {
    let data = bound("Alice", Some(0));
    let mut global = HelloVTab::init();
    let mut local = HelloVTab::init_local(&data);
    assert_eq!(HelloVTab::func(&data, &mut global, &mut local), Ok(Vec::new()));
    assert_eq!(global, HelloGlobalData { done: true });
    assert_eq!(local, HelloLocalData { remaining: 0 });
}

#[test]
fn each_worker_replays_the_count_until_the_stream_is_exhausted() {
    let data = bound("W", Some(2));
    let mut global = HelloVTab::init();
    let mut first = HelloVTab::init_local(&data);
    let mut second = HelloVTab::init_local(&data);
    assert_eq!(HelloVTab::func(&data, &mut global, &mut first), Ok(vec!["Hello W 2".to_string()]));
    assert_eq!(HelloVTab::func(&data, &mut global, &mut second), Ok(vec!["Hello W 2".to_string()]));
    assert_eq!(HelloVTab::func(&data, &mut global, &mut first), Ok(vec!["Hello W 1".to_string()]));
    assert_eq!(global, HelloGlobalData { done: true });
    assert_eq!(HelloVTab::func(&data, &mut global, &mut second), Ok(Vec::new()));
    assert_eq!(second, HelloLocalData { remaining: 1 });
}

#[test]
fn step_decodes_the_stored_bytes() {
    let data = HelloBindData { name: Some(vec![0x5a, 0x6f, 0xc3, 0xab]), count: 1 };
    let mut global = HelloVTab::init();
    let mut local = HelloVTab::init_local(&data);
    assert_eq!(HelloVTab::func(&data, &mut global, &mut local), Ok(vec!["Hello Zo\u{eb} 1".to_string()]));
}

#[test]
fn step_fails_on_malformed_bytes_and_changes_nothing() {
    for bytes in [vec![0xff], vec![0x41, 0x80], vec![0xc0, 0x80], vec![0xed, 0xa0, 0x80], vec![0xe2, 0x82], vec![0xf4, 0x90, 0x80, 0x80]] {
        let data = HelloBindData { name: Some(bytes.clone()), count: 4 };
        let mut global = HelloVTab::init();
        let mut local = HelloVTab::init_local(&data);
        assert_eq!(HelloVTab::func(&data, &mut global, &mut local), Err(HelloError::EncodingError));
        assert_eq!(global, HelloGlobalData { done: false });
        assert_eq!(local, HelloLocalData { remaining: 4 });
        assert_eq!(data.name, Some(bytes));
    }
}

#[test]
fn step_fails_on_a_nul_byte_and_changes_nothing() {
    let data = HelloBindData { name: Some(vec![0x41, 0x00]), count: 4 };
    let mut global = HelloVTab::init();
    let mut local = HelloVTab::init_local(&data);
    assert_eq!(HelloVTab::func(&data, &mut global, &mut local), Err(HelloError::FormatError));
    assert_eq!(global, HelloGlobalData { done: false });
    assert_eq!(local, HelloLocalData { remaining: 4 });
    assert!(data.holds_buffer());
}

#[test]
fn malformed_bytes_are_found_before_a_nul_byte() {
    let data = HelloBindData { name: Some(vec![0x00, 0xff]), count: 1 };
    let mut global = HelloVTab::init();
    let mut local = HelloVTab::init_local(&data);
    assert_eq!(HelloVTab::func(&data, &mut global, &mut local), Err(HelloError::EncodingError));
}

#[test]
fn exhausted_stream_never_looks_at_the_bytes() {
    let data = HelloBindData { name: Some(vec![0xff]), count: 1 };
    let mut global = HelloGlobalData { done: true };
    let mut local = HelloVTab::init_local(&data);
    assert_eq!(HelloVTab::func(&data, &mut global, &mut local), Ok(Vec::new()));
}

#[test]
fn free_releases_the_buffer_once() {
    let mut data = bound("Alice", Some(3));
    assert!(data.holds_buffer());
    data.free();
    assert!(!data.holds_buffer());
    assert_eq!(data.name, None);
    assert_eq!(data.count, 3);
    data.free();
    assert_eq!(data.name, None);
    assert_eq!(data.count, 3);
}

#[test]
fn buffer_is_held_after_a_failed_step() {
    let mut data = HelloBindData { name: Some(vec![0xff]), count: 1 };
    let mut global = HelloVTab::init();
    let mut local = HelloVTab::init_local(&data);
    assert!(HelloVTab::func(&data, &mut global, &mut local).is_err());
    assert!(data.holds_buffer());
    data.free();
    assert!(!data.holds_buffer());
}

#[test]
fn bind_errors_and_execution_errors() {
    assert!(HelloError::InvalidArgument.is_bind_error());
    assert!(HelloError::AllocationError.is_bind_error());
    assert!(!HelloError::EncodingError.is_bind_error());
    assert!(!HelloError::FormatError.is_bind_error());
}
