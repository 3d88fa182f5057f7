use dlsite_sync::catalog::{
    parse_decimal, plan_download, total_declared_size, ContentEntry, ItemDetail, PlanError,
    UrlKind,
};

fn entry(name: &str, size: &str) -> ContentEntry {
    ContentEntry { file_name: name.as_bytes().to_vec(), declared_size: size.as_bytes().to_vec() }
}

#[test]
fn parse_decimal_reads_exact_values() {
    assert_eq!(parse_decimal(&b"0".to_vec()), Some(0));
    assert_eq!(parse_decimal(&b"42".to_vec()), Some(42));
    assert_eq!(parse_decimal(&b"1048576".to_vec()), Some(1_048_576));
    assert_eq!(parse_decimal(&b"18446744073709551615".to_vec()), Some(u64::MAX));
}

#[test]
fn parse_decimal_accepts_one_leading_plus() {
    assert_eq!(parse_decimal(&b"+42".to_vec()), Some(42));
    assert_eq!(parse_decimal(&b"+0".to_vec()), Some(0));
    assert_eq!(parse_decimal(&b"+18446744073709551615".to_vec()), Some(u64::MAX));
    assert_eq!(parse_decimal(&b"+".to_vec()), None);
    assert_eq!(parse_decimal(&b"++1".to_vec()), None);
}

#[test]
fn parse_decimal_rejects_empty_and_non_digits() {
    assert_eq!(parse_decimal(&b"".to_vec()), None);
    assert_eq!(parse_decimal(&b"12a".to_vec()), None);
    assert_eq!(parse_decimal(&b"-5".to_vec()), None);
    assert_eq!(parse_decimal(&b" 7".to_vec()), None);
}

#[test]
fn parse_decimal_rejects_values_past_u64() {
    assert_eq!(parse_decimal(&b"18446744073709551616".to_vec()), None);
    assert_eq!(parse_decimal(&b"99999999999999999999999".to_vec()), None);
}

#[test]
fn total_size_sums_declared_sizes() {
    let contents = vec![entry("a.bin", "100"), entry("b.bin", "250"), entry("c.bin", "0")];
    assert_eq!(total_declared_size(&contents), Ok(350));
}

#[test]
fn total_size_faults_on_non_numeric_entry() {
    let contents = vec![entry("a.bin", "100"), entry("b.bin", "12MB")];
    assert_eq!(total_declared_size(&contents), Err(PlanError::InvalidSize));
}

#[test]
fn total_size_faults_on_overflowing_sum() {
    let contents = vec![
        entry("a.bin", "18446744073709551615"),
        entry("b.bin", "1"),
    ];
    assert_eq!(total_declared_size(&contents), Err(PlanError::InvalidSize));
}

#[test]
fn plan_uses_whole_product_url_for_single_content() {
    let details = vec![ItemDetail { contents: vec![entry("item.zip", "123")] }];
    let plan = plan_download(&details).unwrap();
    assert_eq!(plan.total_size, 123);
    assert_eq!(plan.files.len(), 1);
    assert_eq!(plan.files[0].file_name, b"item.zip".to_vec());
    assert_eq!(plan.files[0].size, 123);
    assert_eq!(plan.files[0].url, UrlKind::Whole);
}

#[test]
fn plan_numbers_parts_from_one_for_multi_content() {
    let details = vec![ItemDetail {
        contents: vec![entry("p.exe", "10"), entry("p.r00", "20"), entry("p.r01", "30")],
    }];
    let plan = plan_download(&details).unwrap();
    assert_eq!(plan.total_size, 60);
    assert_eq!(plan.files.len(), 3);
    for (i, f) in plan.files.iter().enumerate() {
        assert_eq!(f.url, UrlKind::Part { index: i + 1 });
    }
}

#[test]
fn plan_faults_on_missing_detail() {
    let details: Vec<ItemDetail> = Vec::new();
    assert!(matches!(plan_download(&details), Err(PlanError::DetailMissingOrNotUnique)));
}

#[test]
fn plan_faults_on_ambiguous_detail() {
    let details = vec![
        ItemDetail { contents: vec![entry("a.zip", "1")] },
        ItemDetail { contents: vec![entry("a.zip", "1")] },
    ];
    assert!(matches!(plan_download(&details), Err(PlanError::DetailMissingOrNotUnique)));
}

#[test]
fn plan_faults_on_bad_size() {
    let details = vec![ItemDetail { contents: vec![entry("a.zip", "big")] }];
    assert!(matches!(plan_download(&details), Err(PlanError::InvalidSize)));
}
