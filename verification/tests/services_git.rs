use wt::services::git::parse_diff_stats;

#[test]
fn test_parse_diff_stats_empty() {
    // Empty output returns None to trigger fallback to uncommitted changes
    assert_eq!(parse_diff_stats(""), None);
    assert_eq!(parse_diff_stats("  "), None);
}

#[test]
fn test_parse_diff_stats_insertions_only() {
    assert_eq!(
        parse_diff_stats("1 file changed, 10 insertions(+)"),
        Some((10, 0))
    );
}

#[test]
fn test_parse_diff_stats_deletions_only() {
    assert_eq!(
        parse_diff_stats("1 file changed, 5 deletions(-)"),
        Some((0, 5))
    );
}

#[test]
fn test_parse_diff_stats_both() {
    assert_eq!(
        parse_diff_stats("3 files changed, 10 insertions(+), 5 deletions(-)"),
        Some((10, 5))
    );
}

#[test]
fn test_parse_diff_stats_singular() {
    assert_eq!(
        parse_diff_stats("1 file changed, 1 insertion(+), 1 deletion(-)"),
        Some((1, 1))
    );
}
