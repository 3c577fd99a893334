use restore_drill_attestor::demo::{demo_config, demo_config_windows, shell_quote, shell_quote_windows};

#[test]
fn shell_quote_wraps_and_escapes_single_quotes() {
    assert_eq!(shell_quote("/tmp/a b"), "'/tmp/a b'");
    assert_eq!(shell_quote("it's"), "'it'\\''s'");
    assert_eq!(shell_quote(""), "''");
    assert_eq!(shell_quote_windows("C:\\x y"), "\"C:\\x y\"");
}

#[test]
fn demo_config_names_the_quoted_paths() {
    let text = demo_config("sample-target-1", "/tmp/s.tsv", "/tmp/t");
    assert!(text.starts_with("version = 1\nattestation_ttl_days = 30\n\n[drill]\n"));
    assert!(text.contains("id = \"sample-target-1\"\nisolated = true\n"));
    assert!(text.contains("prepare = \"mkdir -p '/tmp/t'\"\n"));
    assert!(text.contains("restore = \"cp '/tmp/s.tsv' '/tmp/t'/restored.tsv\"\n"));
    assert!(text.contains("cleanup = \"rm -rf '/tmp/t'\"\n"));
    assert!(text.contains("command = \"awk 'END { print NR - 1 }' '/tmp/t'/restored.tsv\"\nmin = 3\nmax = 3\n"));
    assert!(text.contains("contains = \"account_id\"\n"));
    assert!(text.contains("command = \"grep -q 'acme-garden' '/tmp/t'/restored.tsv\"\n"));
    assert!(text.ends_with("timeout_seconds = 10\n"));
    assert_eq!(text.matches("[[checks]]").count(), 3);
}

#[test]
fn windows_demo_config_has_the_same_three_checks() {
    let text = demo_config_windows("t1", "C:\\s.tsv", "C:\\t");
    assert!(text.contains("prepare = 'mkdir \"C:\\t\"'\n"));
    assert!(text.contains("restore = 'copy \"C:\\s.tsv\" \"C:\\t\"\\restored.tsv'\n"));
    assert!(text.contains("kind = \"row_count\"\n"));
    assert!(text.contains("min = 3\nmax = 3\n"));
    assert!(text.contains("kind = \"schema\"\n"));
    assert!(text.contains("contains = \"account_id\"\n"));
    assert!(text.contains("kind = \"application\"\n"));
    assert_eq!(text.matches("[[checks]]").count(), 3);
}
