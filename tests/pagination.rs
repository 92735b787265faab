use agri_api::error::AppError;
use agri_api::models::Pagination;
use agri_api::pagination::page_numbers;
use agri_api::user::users_page;

#[test]
fn third_page_of_twenty_five() {
    let info = page_numbers(10, 20, 25).unwrap();
    assert_eq!(info.current_page, 3);
    assert_eq!(info.total_pages, 3);
}

#[test]
fn first_page_and_exact_division() {
    let info = page_numbers(5, 0, 20).unwrap();
    assert_eq!(info.current_page, 1);
    assert_eq!(info.total_pages, 4);
}

#[test]
fn empty_table_has_no_pages() {
    let info = page_numbers(10, 0, 0).unwrap();
    assert_eq!(info.current_page, 1);
    assert_eq!(info.total_pages, 0);
}

#[test]
fn offset_inside_a_page() {
    let info = page_numbers(10, 19, 101).unwrap();
    assert_eq!(info.current_page, 2);
    assert_eq!(info.total_pages, 11);
}

#[test]
fn largest_count_rounds_up() {
    let info = page_numbers(2, 0, i64::MAX).unwrap();
    assert_eq!(info.total_pages, i64::MAX / 2 + 1);
}

#[test]
fn zero_limit_is_rejected() {
    assert_eq!(page_numbers(0, 0, 5), Err(AppError::InvalidLimit));
}

#[test]
fn negative_limit_is_rejected() {
    assert_eq!(page_numbers(-3, 0, 5), Err(AppError::InvalidLimit));
}

#[test]
fn negative_offset_is_rejected() {
    assert_eq!(page_numbers(10, -1, 5), Err(AppError::InvalidOffset));
}

#[test]
fn unnumberable_offset_is_rejected() {
    assert_eq!(page_numbers(1, i64::MAX, 5), Err(AppError::InvalidOffset));
}

#[test]
fn user_envelope_carries_rows_and_numbers() {
    let p = Pagination { limit: 10, offset: 20 };
    let e = users_page(&p, 25, vec!["a", "b"]).unwrap();
    assert_eq!(e.total_results, 25);
    assert_eq!(e.current_page, 3);
    assert_eq!(e.total_pages, 3);
    assert_eq!(e.users, vec!["a", "b"]);
}

#[test]
fn user_envelope_refuses_zero_limit() {
    let p = Pagination { limit: 0, offset: 0 };
    assert!(matches!(users_page(&p, 3, vec![1, 2]), Err(AppError::InvalidLimit)));
}
