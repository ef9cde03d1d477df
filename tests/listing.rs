use enva::listing::{parse_conda_env_list, parse_env_listing, table_row, CondaEnvironment};

#[test]
fn active_line_takes_prefix_from_third_word() {
    let envs = parse_env_listing("base * /opt/pm/base");
    assert_eq!(envs.len(), 1);
    assert_eq!(envs[0].name, "base");
    assert_eq!(envs[0].prefix, "/opt/pm/base");
    assert!(envs[0].is_active);
}

#[test]
fn inactive_line_takes_prefix_from_second_word() {
    let envs = parse_env_listing("demo /opt/pm/envs/demo");
    assert_eq!(envs.len(), 1);
    assert_eq!(envs[0].name, "demo");
    assert_eq!(envs[0].prefix, "/opt/pm/envs/demo");
    assert!(!envs[0].is_active);
}

#[test]
fn comments_blank_and_short_lines_are_skipped() {
    let text = "# conda environments:\n#\n\n   \nlonely\nbase                  *  /opt/pm\nstar *\nenv1                     /opt/pm/envs/env1\r\n";
    let envs = parse_env_listing(text);
    assert_eq!(envs.len(), 2);
    assert_eq!(envs[0].name, "base");
    assert_eq!(envs[0].prefix, "/opt/pm");
    assert!(envs[0].is_active);
    assert_eq!(envs[1].name, "env1");
    assert_eq!(envs[1].prefix, "/opt/pm/envs/env1");
}

#[test]
fn empty_listing_has_no_entries() {
    assert!(parse_env_listing("").is_empty());
    assert!(parse_conda_env_list(b"").unwrap().is_empty());
}

#[test]
fn raw_bytes_are_decoded() {
    let envs = parse_conda_env_list(b"# x\nbase * /opt/pm\nd\xff /p\n").unwrap();
    assert_eq!(envs.len(), 2);
    assert_eq!(envs[0].prefix, "/opt/pm");
    assert_eq!(envs[1].name, "d\u{fffd}");
}

#[test]
fn table_rows_pad_the_name_column() {
    let e = CondaEnvironment { name: "base".to_string(), prefix: "/opt/pm".to_string(), is_active: true };
    assert_eq!(table_row(&e), format!("{:<30} | {}", "base*", "/opt/pm"));
    let long = "n".repeat(40);
    let f = CondaEnvironment { name: long.clone(), prefix: "/p".to_string(), is_active: false };
    assert_eq!(table_row(&f), format!("{} | /p", long));
}
