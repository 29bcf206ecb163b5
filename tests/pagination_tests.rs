use shrt::pagination::{paginate, resolve_page_request};

#[test]
fn page_count_is_ceiling() {
    assert_eq!(paginate(1, 30, 0).page_count, 0);
    assert_eq!(paginate(1, 30, 1).page_count, 1);
    assert_eq!(paginate(1, 30, 30).page_count, 1);
    assert_eq!(paginate(1, 30, 31).page_count, 2);
    assert_eq!(paginate(1, 7, 100).page_count, 15);
    assert_eq!(paginate(1, 1, u64::MAX).page_count, u64::MAX);
}

#[test]
fn offset_of_page() {
    let w = paginate(3, 10, 100);
    assert_eq!(w.offset, 20);
    assert_eq!(w.limit, 10);
    assert_eq!(paginate(1, 10, 100).offset, 0);
    assert_eq!(paginate(u64::MAX, 2, 5).offset, u64::MAX);
}

#[test]
fn zero_is_clamped() {
    let w = paginate(0, 0, 3);
    assert_eq!((w.page, w.per_page, w.offset, w.page_count), (1, 1, 0, 3));
}

#[test]
fn request_defaults() {
    assert_eq!(resolve_page_request(None, None), (1, 30));
    assert_eq!(resolve_page_request(Some(4), Some(0)), (4, 1));
}
