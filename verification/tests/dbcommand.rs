use rsdroid::pager::{DbResponse, Pager};
use rsdroid::paging::select_slice_of_size;
use rsdroid::values::{Data, DbResult, Row, Sizable, SqlValue};

fn gen_data() -> Vec<SqlValue> {
    vec![
        SqlValue {
            data: Some(Data::DoubleValue(12.0f64.to_bits())),
        },
        SqlValue {
            data: Some(Data::LongValue(12)),
        },
        SqlValue {
            data: Some(Data::StringValue("Hellooooooo World".to_string())),
        },
        SqlValue {
            data: Some(Data::BlobValue(vec![])),
        },
    ]
}

fn row_count(resp: &DbResponse) -> usize {
    resp.result.as_ref().map(|x| x.rows.len()).unwrap_or(0)
}

const BACKEND_PTR: i64 = 12;
const SEQUENCE_NUMBER: i32 = 1;

fn seq_number_used(pager: &Pager) -> bool {
    pager.active_sequences(BACKEND_PTR).contains(&SEQUENCE_NUMBER)
}

#[test]
fn test_size_estimate() {
    let row = Row { fields: gen_data() };
    let result = DbResult {
        rows: vec![row.clone(), row.clone()],
    };

    let actual_size = result.estimate_size();

    let expected_size = (17 + 8 + 8) * 2; // 1 variable string, 1 long, 1 float
    let expected_overhead = (4 * 1) * 2; // 4 optional columns

    assert_eq!(actual_size, expected_overhead + expected_size);
}

#[test]
fn test_stream_size() {
    let row = Row { fields: gen_data() };
    let result = DbResult {
        rows: vec![row.clone(), row.clone(), row.clone()],
    };
    let limit = 74 + 1; // two rows are 74

    let result = select_slice_of_size(&result.rows, limit);

    assert_eq!(2, result.1.len(), "The final element should not be included");
    assert_eq!(
        74, result.0,
        "The size should be the size of the first two objects"
    );
}

#[test]
fn test_stream_size_too_small() {
    let row = Row { fields: gen_data() };
    let result = DbResult {
        rows: vec![row.clone()],
    };
    let limit = 1;

    let result = select_slice_of_size(&result.rows, limit);

    assert_eq!(
        1,
        result.1.len(),
        "If the limit is too small, a result is still returned"
    );
    assert_eq!(
        37, result.0,
        "The size should be the size of the first objects"
    );
}

#[test]
fn integration_test() {
    let row = Row { fields: gen_data() };
    let mut pager = Pager::new();

    // return one row at a time
    pager.set_max_page_size(row.estimate_size() - 1);

    let db_query_result = DbResult {
        rows: vec![row.clone(), row.clone()],
    };

    let first_jni_response =
        pager.trim_and_cache_remaining(BACKEND_PTR, db_query_result, SEQUENCE_NUMBER);

    assert_eq!(
        row_count(&first_jni_response),
        1,
        "The first call should only return one row"
    );
    assert!(seq_number_used(&pager), "The sequence number is assigned");

    let next_index = first_jni_response.start_index + row_count(&first_jni_response);

    let second_response = pager.get_next(BACKEND_PTR, SEQUENCE_NUMBER, next_index);

    assert!(
        second_response.is_some(),
        "The second response should return a value"
    );
    let valid_second_response = second_response.unwrap();
    assert_eq!(row_count(&valid_second_response), 1);
    assert!(
        !seq_number_used(&pager),
        "Sequence number data has been cleared"
    );

    let final_index = valid_second_response.start_index + row_count(&valid_second_response);

    let final_response = pager.get_next(BACKEND_PTR, SEQUENCE_NUMBER, final_index);
    assert!(
        final_response.is_none(),
        "The third call should return nothing"
    );
    assert!(
        !seq_number_used(&pager),
        "Sequence number data has been cleared"
    );
}

fn long_row(columns: usize) -> Row {
    Row {
        fields: (0..columns)
            .map(|i| SqlValue {
                data: Some(Data::LongValue(i as i64)),
            })
            .collect(),
    }
}

fn first_long(row: &Row) -> i64 {
    match &row.fields[0].data {
        Some(Data::LongValue(v)) => *v,
        _ => panic!("not a long"),
    }
}

fn numbered_rows(n: i64) -> Vec<Row> {
    (0..n)
        .map(|i| Row {
            fields: vec![SqlValue {
                data: Some(Data::LongValue(i)),
            }],
        })
        .collect()
}

#[test]
fn row_estimate_is_payload_plus_one_byte_per_column() {
    let row = Row { fields: gen_data() };
    assert_eq!(row.estimate_size(), 17 + 8 + 8 + 0 + 4 * 1);
    assert_eq!(row.checked_estimate_size(), Some(37));
}

#[test]
fn value_estimates() {
    assert_eq!(Data::LongValue(-1).estimate_size(), 8);
    assert_eq!(Data::DoubleValue(0.5f64.to_bits()).estimate_size(), 8);
    assert_eq!(Data::BlobValue(vec![1, 2, 3]).estimate_size(), 3);
    assert_eq!(Data::StringValue("abc".to_string()).estimate_size(), 3);
    // two bytes in UTF-8 for each of these characters
    assert_eq!(Data::StringValue("éé".to_string()).estimate_size(), 4);
    assert_eq!(SqlValue { data: None }.estimate_size(), 1);
    assert_eq!(
        SqlValue {
            data: Some(Data::BlobValue(vec![]))
        }
        .estimate_size(),
        1
    );
    assert_eq!(Row { fields: vec![] }.estimate_size(), 0);
    assert_eq!(DbResult { rows: vec![] }.estimate_size(), 0);
    assert_eq!(DbResult { rows: vec![] }.checked_estimate_size(), Some(0));
}

#[test]
fn clone_keeps_the_values() {
    let row = Row { fields: gen_data() };
    let copy = row.clone();
    assert_eq!(copy.fields.len(), 4);
    assert!(matches!(&copy.fields[0].data, Some(Data::DoubleValue(b)) if *b == 12.0f64.to_bits()));
    assert!(matches!(&copy.fields[1].data, Some(Data::LongValue(12))));
    assert!(matches!(&copy.fields[2].data, Some(Data::StringValue(s)) if s == "Hellooooooo World"));
    assert!(matches!(&copy.fields[3].data, Some(Data::BlobValue(b)) if b.is_empty()));
    let result = DbResult {
        rows: vec![row, copy],
    };
    assert_eq!(result.clone().estimate_size(), 74);
}

#[test]
fn select_of_no_rows_is_empty() {
    let rows: Vec<Row> = vec![];
    let (size, selected) = select_slice_of_size(&rows, 100);
    assert_eq!(size, 0);
    assert!(selected.is_empty());
}

#[test]
fn select_takes_rows_up_to_the_budget() {
    // each row: one long, 9 bytes
    let rows = numbered_rows(5);
    let (size, selected) = select_slice_of_size(&rows, 27);
    assert_eq!(size, 27);
    assert_eq!(selected.len(), 3);
    assert_eq!(first_long(&selected[0]), 0);
    assert_eq!(first_long(&selected[1]), 1);
    assert_eq!(first_long(&selected[2]), 2);

    let (size, selected) = select_slice_of_size(&rows, 26);
    assert_eq!(size, 18);
    assert_eq!(selected.len(), 2);

    let (size, selected) = select_slice_of_size(&rows, 1000);
    assert_eq!(size, 45);
    assert_eq!(selected.len(), 5);
}

#[test]
fn select_of_identical_rows_leaves_out_the_row_after_the_budget() {
    // k rows of S bytes fit a budget of k * S + 1
    let rows: Vec<Row> = (0..6).map(|_| long_row(3)).collect();
    let s = rows[0].estimate_size();
    assert_eq!(s, 27);
    for k in 1..=6usize {
        let (size, selected) = select_slice_of_size(&rows, k * s + 1);
        assert_eq!(selected.len(), k);
        assert_eq!(size, k * s);
    }
}

#[test]
fn select_makes_progress_with_a_budget_of_zero() {
    let rows = numbered_rows(3);
    let (size, selected) = select_slice_of_size(&rows, 0);
    assert_eq!(selected.len(), 1);
    assert_eq!(size, 9);
    assert_eq!(first_long(&selected[0]), 0);
}

#[test]
fn select_stops_at_a_large_row_after_rows_without_columns() {
    // two rows of no bytes, then a row above the budget: the page has rows
    // already, so the large row is left for the next page
    let rows = vec![long_row(0), long_row(0), long_row(2), long_row(0)];
    let (size, selected) = select_slice_of_size(&rows, 5);
    assert_eq!(selected.len(), 2);
    assert_eq!(size, 0);
}

#[test]
fn new_pager_has_the_default_budget_and_nothing_cached() {
    let pager = Pager::new();
    assert_eq!(pager.get_max_page_size(), 1024 * 1024 * 2);
    assert_eq!(pager.last_sequence_number(), 0);
    assert!(pager.active_sequences(BACKEND_PTR).is_empty());
}

#[test]
fn set_max_page_size_is_read_back() {
    let mut pager = Pager::new();
    pager.set_max_page_size(10);
    assert_eq!(pager.get_max_page_size(), 10);
    pager.set_max_page_size(0);
    assert_eq!(pager.get_max_page_size(), 0);
}

#[test]
fn sequence_numbers_start_at_one_and_increase() {
    let mut pager = Pager::new();
    assert_eq!(pager.next_sequence_number(), 1);
    assert_eq!(pager.next_sequence_number(), 2);
    assert_eq!(pager.next_sequence_number(), 3);
    assert_eq!(pager.last_sequence_number(), 3);
}

#[test]
fn result_of_one_page_is_not_cached() {
    let mut pager = Pager::new();
    let response = pager.run_paged_query(
        BACKEND_PTR,
        DbResult {
            rows: numbered_rows(4),
        },
    );
    assert_eq!(response.sequence_number, 1);
    assert_eq!(response.row_count, 4);
    assert_eq!(response.start_index, 0);
    assert_eq!(row_count(&response), 4);
    assert!(pager.active_sequences(BACKEND_PTR).is_empty());
    assert!(pager.get_next(BACKEND_PTR, 1, 4).is_none());
}

#[test]
fn empty_result_is_served_and_not_cached() {
    let mut pager = Pager::new();
    let response = pager.run_paged_query(BACKEND_PTR, DbResult { rows: vec![] });
    assert_eq!(response.row_count, 0);
    assert_eq!(row_count(&response), 0);
    assert!(response.result.is_some());
    assert!(pager.active_sequences(BACKEND_PTR).is_empty());
}

#[test]
fn pages_deliver_every_row_once_and_in_order() {
    let mut pager = Pager::new();
    // 9 bytes a row: three rows a page
    pager.set_max_page_size(30);
    let first = pager.run_paged_query(
        BACKEND_PTR,
        DbResult {
            rows: numbered_rows(10),
        },
    );
    let sequence_number = first.sequence_number;
    assert_eq!(first.row_count, 10);
    assert_eq!(pager.active_sequences(BACKEND_PTR), vec![sequence_number]);

    let mut delivered: Vec<i64> = first
        .result
        .as_ref()
        .unwrap()
        .rows
        .iter()
        .map(first_long)
        .collect();
    assert_eq!(delivered, vec![0, 1, 2]);
    let mut cursor = first.start_index + row_count(&first);
    let mut pages = 1;
    while let Some(response) = pager.get_next(BACKEND_PTR, sequence_number, cursor) {
        assert_eq!(response.sequence_number, sequence_number);
        assert_eq!(response.row_count, 10);
        assert_eq!(response.start_index, cursor);
        assert!(row_count(&response) >= 1);
        delivered.extend(response.result.as_ref().unwrap().rows.iter().map(first_long));
        cursor = response.start_index + row_count(&response);
        pages += 1;
    }
    assert_eq!(pages, 4);
    assert_eq!(delivered, (0..10).collect::<Vec<i64>>());
    assert!(pager.active_sequences(BACKEND_PTR).is_empty());
    assert!(pager.get_next(BACKEND_PTR, sequence_number, cursor).is_none());
}

#[test]
fn a_page_can_be_fetched_again_while_rows_are_left() {
    let mut pager = Pager::new();
    pager.set_max_page_size(9);
    let first = pager.run_paged_query(
        BACKEND_PTR,
        DbResult {
            rows: numbered_rows(3),
        },
    );
    let seq = first.sequence_number;
    let once = pager.get_next(BACKEND_PTR, seq, 1).unwrap();
    let again = pager.get_next(BACKEND_PTR, seq, 1).unwrap();
    assert_eq!(row_count(&once), 1);
    assert_eq!(row_count(&again), 1);
    assert_eq!(first_long(&once.result.unwrap().rows[0]), 1);
    assert_eq!(first_long(&again.result.unwrap().rows[0]), 1);
    assert_eq!(pager.active_sequences(BACKEND_PTR), vec![seq]);
}

#[test]
fn fetch_past_the_last_row_serves_no_rows_and_lets_go() {
    let mut pager = Pager::new();
    pager.set_max_page_size(9);
    let first = pager.run_paged_query(
        BACKEND_PTR,
        DbResult {
            rows: numbered_rows(3),
        },
    );
    let seq = first.sequence_number;
    let response = pager.get_next(BACKEND_PTR, seq, 7).unwrap();
    assert_eq!(row_count(&response), 0);
    assert_eq!(response.start_index, 7);
    assert_eq!(response.row_count, 3);
    assert!(pager.active_sequences(BACKEND_PTR).is_empty());
    assert!(pager.get_next(BACKEND_PTR, seq, 0).is_none());
}

#[test]
fn fetch_of_unknown_sequence_finds_nothing() {
    let mut pager = Pager::new();
    assert!(pager.get_next(BACKEND_PTR, 1, 0).is_none());
    pager.set_max_page_size(9);
    let first = pager.run_paged_query(
        BACKEND_PTR,
        DbResult {
            rows: numbered_rows(3),
        },
    );
    assert!(pager
        .get_next(BACKEND_PTR, first.sequence_number + 1, 0)
        .is_none());
    assert!(pager
        .get_next(BACKEND_PTR + 1, first.sequence_number, 0)
        .is_none());
    assert_eq!(
        pager.active_sequences(BACKEND_PTR),
        vec![first.sequence_number]
    );
}

#[test]
fn cancelled_query_is_gone_at_once() {
    let mut pager = Pager::new();
    pager.set_max_page_size(9);
    let a = pager.run_paged_query(
        BACKEND_PTR,
        DbResult {
            rows: numbered_rows(3),
        },
    );
    let b = pager.run_paged_query(
        BACKEND_PTR,
        DbResult {
            rows: numbered_rows(4),
        },
    );
    let mut active = pager.active_sequences(BACKEND_PTR);
    active.sort();
    assert_eq!(active, vec![a.sequence_number, b.sequence_number]);

    pager.flush_cache(&BACKEND_PTR, a.sequence_number);
    assert_eq!(pager.active_sequences(BACKEND_PTR), vec![b.sequence_number]);
    assert!(pager.get_next(BACKEND_PTR, a.sequence_number, 1).is_none());

    // cancelling again, or what was never there, changes nothing
    pager.flush_cache(&BACKEND_PTR, a.sequence_number);
    pager.flush_cache(&(BACKEND_PTR + 1), b.sequence_number);
    assert_eq!(pager.active_sequences(BACKEND_PTR), vec![b.sequence_number]);
    let next = pager.get_next(BACKEND_PTR, b.sequence_number, 1).unwrap();
    assert_eq!(first_long(&next.result.unwrap().rows[0]), 1);
}

#[test]
fn cancel_all_spares_the_other_handles() {
    let mut pager = Pager::new();
    pager.set_max_page_size(9);
    let a = pager.run_paged_query(
        1,
        DbResult {
            rows: numbered_rows(3),
        },
    );
    let b = pager.run_paged_query(
        1,
        DbResult {
            rows: numbered_rows(3),
        },
    );
    let c = pager.run_paged_query(
        2,
        DbResult {
            rows: numbered_rows(5),
        },
    );
    let mut active = pager.active_sequences(1);
    active.sort();
    assert_eq!(active, vec![a.sequence_number, b.sequence_number]);

    pager.flush_all(&1);
    assert!(pager.active_sequences(1).is_empty());
    assert!(pager.get_next(1, a.sequence_number, 1).is_none());
    assert!(pager.get_next(1, b.sequence_number, 1).is_none());
    assert_eq!(pager.active_sequences(2), vec![c.sequence_number]);
    let next = pager.get_next(2, c.sequence_number, 1).unwrap();
    assert_eq!(next.row_count, 5);
    assert_eq!(first_long(&next.result.unwrap().rows[0]), 1);

    pager.flush_all(&3);
    assert_eq!(pager.active_sequences(2), vec![c.sequence_number]);
}

#[test]
fn one_large_row_is_served_alone() {
    let mut pager = Pager::new();
    pager.set_max_page_size(4);
    let first = pager.run_paged_query(
        BACKEND_PTR,
        DbResult {
            rows: vec![long_row(5), long_row(1)],
        },
    );
    assert_eq!(row_count(&first), 1);
    assert_eq!(first.result.as_ref().unwrap().rows[0].fields.len(), 5);
    let second = pager.get_next(BACKEND_PTR, first.sequence_number, 1).unwrap();
    assert_eq!(row_count(&second), 1);
    assert_eq!(second.result.as_ref().unwrap().rows[0].fields.len(), 1);
    assert!(pager.active_sequences(BACKEND_PTR).is_empty());
}

#[test]
fn select_next_slice_uses_the_budget_that_is_set() {
    let mut pager = Pager::new();
    let rows = numbered_rows(4);
    assert_eq!(pager.select_next_slice(&rows).len(), 4);
    pager.set_max_page_size(18);
    assert_eq!(pager.select_next_slice(&rows).len(), 2);
    assert_eq!(pager.select_next_slice(&rows[3..]).len(), 1);
}

#[test]
fn two_rows_with_room_for_one_take_two_pages() {
    let row = Row { fields: gen_data() };
    let mut pager = Pager::new();
    pager.set_max_page_size(row.estimate_size());

    let first = pager.run_paged_query(
        BACKEND_PTR,
        DbResult {
            rows: vec![row.clone(), row.clone()],
        },
    );
    let sequence_number = first.sequence_number;
    assert_eq!(row_count(&first), 1);
    assert_eq!(first.row_count, 2);
    assert_eq!(pager.active_sequences(BACKEND_PTR), vec![sequence_number]);

    let cursor = first.start_index + row_count(&first);
    let second = pager
        .get_next(BACKEND_PTR, sequence_number, cursor)
        .expect("the second page");
    assert_eq!(row_count(&second), 1);
    assert_eq!(second.start_index, 1);
    assert_eq!(second.row_count, 2);
    assert!(pager.active_sequences(BACKEND_PTR).is_empty());

    let cursor = second.start_index + row_count(&second);
    assert!(pager.get_next(BACKEND_PTR, sequence_number, cursor).is_none());
    assert!(!pager
        .active_sequences(BACKEND_PTR)
        .contains(&sequence_number));
}

#[test]
fn a_result_under_a_number_in_use_takes_its_place() {
    let mut pager = Pager::new();
    pager.set_max_page_size(9);
    let seq = pager.next_sequence_number();
    pager.trim_and_cache_remaining(
        BACKEND_PTR,
        DbResult {
            rows: numbered_rows(3),
        },
        seq,
    );
    pager.trim_and_cache_remaining(
        BACKEND_PTR,
        DbResult {
            rows: numbered_rows(5),
        },
        seq,
    );
    assert_eq!(pager.active_sequences(BACKEND_PTR), vec![seq]);
    let next = pager.get_next(BACKEND_PTR, seq, 1).unwrap();
    assert_eq!(next.row_count, 5);
}

#[test]
fn a_number_handed_in_is_not_issued_again() {
    let mut pager = Pager::new();
    pager.set_max_page_size(9);
    let first = pager.trim_and_cache_remaining(
        7,
        DbResult {
            rows: numbered_rows(3),
        },
        1,
    );
    assert_eq!(first.sequence_number, 1);
    assert_eq!(pager.active_sequences(7), vec![1]);
    assert_eq!(pager.last_sequence_number(), 1);

    let second = pager.run_paged_query(
        7,
        DbResult {
            rows: numbered_rows(4),
        },
    );
    assert_eq!(second.sequence_number, 2);
    let mut active = pager.active_sequences(7);
    active.sort();
    assert_eq!(active, vec![1, 2]);
    // the result that was kept first is still the one under its number
    let next = pager.get_next(7, 1, 1).unwrap();
    assert_eq!(next.row_count, 3);
    let next = pager.get_next(7, 2, 1).unwrap();
    assert_eq!(next.row_count, 4);
}

#[test]
fn a_number_ahead_of_the_counter_raises_it() {
    let mut pager = Pager::new();
    pager.set_max_page_size(9);
    // the number counts as issued whether or not the result is kept
    pager.trim_and_cache_remaining(
        7,
        DbResult {
            rows: numbered_rows(1),
        },
        5,
    );
    assert!(pager.active_sequences(7).is_empty());
    assert_eq!(pager.last_sequence_number(), 5);
    assert_eq!(pager.next_sequence_number(), 6);
    pager.trim_and_cache_remaining(
        8,
        DbResult {
            rows: numbered_rows(2),
        },
        9,
    );
    assert_eq!(pager.active_sequences(8), vec![9]);
    assert_eq!(pager.next_sequence_number(), 10);
}

#[test]
fn a_number_behind_the_counter_leaves_it() {
    let mut pager = Pager::new();
    pager.set_max_page_size(9);
    assert_eq!(pager.next_sequence_number(), 1);
    assert_eq!(pager.next_sequence_number(), 2);
    pager.trim_and_cache_remaining(
        7,
        DbResult {
            rows: numbered_rows(2),
        },
        1,
    );
    pager.trim_and_cache_remaining(
        7,
        DbResult {
            rows: numbered_rows(2),
        },
        -3,
    );
    assert_eq!(pager.last_sequence_number(), 2);
    let mut active = pager.active_sequences(7);
    active.sort();
    assert_eq!(active, vec![-3, 1]);
    assert_eq!(pager.next_sequence_number(), 3);
}

#[test]
fn issued_numbers_are_in_use_for_no_handle() {
    let mut pager = Pager::new();
    pager.set_max_page_size(9);
    let mut issued = Vec::new();
    for handle in [1i64, 2, 1, 3, 2] {
        for other in [1i64, 2, 3] {
            let next = pager.last_sequence_number() + 1;
            assert!(!pager.active_sequences(other).contains(&next));
        }
        let response = pager.run_paged_query(
            handle,
            DbResult {
                rows: numbered_rows(2),
            },
        );
        assert!(!issued.contains(&response.sequence_number));
        assert!(pager
            .active_sequences(handle)
            .contains(&response.sequence_number));
        issued.push(response.sequence_number);
    }
    assert_eq!(issued, vec![1, 2, 3, 4, 5]);
    let mut active = pager.active_sequences(1);
    active.sort();
    assert_eq!(active, vec![1, 3]);
}
