use wt::constants::{branch_name, branch_pattern};

#[test]
fn test_branch_name() {
    assert_eq!(branch_name("auth", "3e20cef2"), "wt/auth-3e20");
    assert_eq!(branch_name("feature-x", "a1b2c3d4"), "wt/feature-x-a1b2");
}

#[test]
fn test_branch_name_short_session_id() {
    assert_eq!(branch_name("auth", "ab"), "wt/auth-ab");
    assert_eq!(branch_name("auth", ""), "wt/auth-");
}

#[test]
fn test_branch_pattern() {
    assert_eq!(branch_pattern("auth"), "wt/auth-*");
    assert_eq!(branch_pattern("feature-x"), "wt/feature-x-*");
}
