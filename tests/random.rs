use std_stupid_http::random::random_number_from_bytes;

#[test]
fn random_number_sums_bytes() {
    assert_eq!(random_number_from_bytes([0; 8]), 0);
    assert_eq!(random_number_from_bytes([255; 8]), 2040);
    assert_eq!(random_number_from_bytes([1, 2, 3, 4, 5, 6, 7, 8]), 36);
}
