use cluster_map::{ClusterMap, ClusterMapError, MAX_GROUP, MIN_GROUP};

fn record(name: &str, group: i32) -> ClusterMap {
    ClusterMap { name: name.to_string(), group }
}

#[test]
fn bounds_are_zero_and_one_hundred() {
    assert_eq!(MIN_GROUP, 0);
    assert_eq!(MAX_GROUP, 100);
}

#[test]
fn validate_returns_every_group_in_range_unchanged() {
    for group in 0..=100 {
        assert_eq!(record("east", group).validate(), Ok(record("east", group)));
    }
}

#[test]
fn validate_accepts_both_bounds() {
    assert_eq!(record("low", 0).validate(), Ok(record("low", 0)));
    assert_eq!(record("high", 100).validate(), Ok(record("high", 100)));
}

#[test]
fn validate_keeps_the_name() {
    let checked = record("a name with spaces, and \u{e9}", 7).validate();
    assert_eq!(checked.map(|r| r.name), Ok("a name with spaces, and \u{e9}".to_string()));
    assert_eq!(record("", 7).validate(), Ok(record("", 7)));
}

#[test]
fn validate_reports_the_group_just_outside_the_range() {
    assert_eq!(record("east", -1).validate(), Err(ClusterMapError::InvalidGroup(-1)));
    assert_eq!(record("east", 101).validate(), Err(ClusterMapError::InvalidGroup(101)));
}

#[test]
fn validate_reports_every_group_out_of_range() {
    for group in [i32::MIN, -1000, -2, 102, 150, 1000, i32::MAX] {
        assert_eq!(record("east", group).validate(), Err(ClusterMapError::InvalidGroup(group)));
    }
    for group in 101..=400 {
        assert_eq!(record("east", group).validate(), Err(ClusterMapError::InvalidGroup(group)));
        assert_eq!(record("east", -group).validate(), Err(ClusterMapError::InvalidGroup(-group)));
    }
}

#[test]
fn invalid_group_carries_the_offending_value() {
    match record("east", 150).validate() {
        Err(ClusterMapError::InvalidGroup(group)) => assert_eq!(group, 150),
        Ok(r) => panic!("accepted {:?}", r),
    }
}
