use chelsea_lib::env_file::render_env_file;
use std::collections::HashMap;

#[test]
fn render_env_file_empty() {
    let vars = HashMap::new();
    let content = render_env_file(&vars);
    assert!(content.is_empty());
}

#[test]
fn render_env_file_sorted() {
    let mut vars = HashMap::new();
    vars.insert("ZZZ".to_string(), "last".to_string());
    vars.insert("AAA".to_string(), "first".to_string());
    vars.insert("MMM".to_string(), "middle".to_string());

    let content = render_env_file(&vars);
    let lines: Vec<&str> = content.lines().collect();
    assert_eq!(lines.len(), 3);
    assert_eq!(lines[0], "AAA=first");
    assert_eq!(lines[1], "MMM=middle");
    assert_eq!(lines[2], "ZZZ=last");
}

#[test]
fn render_env_file_no_export_prefix() {
    let mut vars = HashMap::new();
    vars.insert("DB_URL".to_string(), "postgres://localhost/db".to_string());

    let content = render_env_file(&vars);
    assert_eq!(content, "DB_URL=postgres://localhost/db\n");
    assert!(!content.contains("export"));
}

#[test]
fn render_env_file_values_unquoted() {
    let mut vars = HashMap::new();
    vars.insert("MSG".to_string(), "hello world".to_string());

    let content = render_env_file(&vars);
    assert_eq!(content, "MSG=hello world\n");
}

#[test]
fn render_env_file_special_chars_literal() {
    let mut vars = HashMap::new();
    vars.insert("A".to_string(), "$(rm -rf /)".to_string());
    vars.insert("B".to_string(), "`cat /etc/passwd`".to_string());
    vars.insert("C".to_string(), "${HOME}".to_string());

    let content = render_env_file(&vars);
    assert!(content.contains("A=$(rm -rf /)\n"));
    assert!(content.contains("B=`cat /etc/passwd`\n"));
    assert!(content.contains("C=${HOME}\n"));
}

#[test]
fn render_env_file_empty_value() {
    let mut vars = HashMap::new();
    vars.insert("EMPTY".to_string(), "".to_string());

    let content = render_env_file(&vars);
    assert_eq!(content, "EMPTY=\n");
}

#[test]
fn render_env_file_value_with_equals() {
    let mut vars = HashMap::new();
    vars.insert("DSN".to_string(), "host=localhost port=5432".to_string());

    let content = render_env_file(&vars);
    assert_eq!(content, "DSN=host=localhost port=5432\n");
}

#[test]
fn render_env_file_single_quotes_in_value() {
    let mut vars = HashMap::new();
    vars.insert("MSG".to_string(), "it's fine".to_string());

    let content = render_env_file(&vars);
    assert_eq!(content, "MSG=it's fine\n");
}

#[test]
fn render_env_file_same_text_whatever_the_insertion_order() {
    let mut first = HashMap::new();
    let mut second = HashMap::new();
    let keys = ["PATH", "HOME", "LANG", "A", "AB", "B", "Z9", "_X"];
    for (i, k) in keys.iter().enumerate() {
        first.insert(k.to_string(), format!("v{i}"));
    }
    for (i, k) in keys.iter().enumerate().rev() {
        second.insert(k.to_string(), format!("v{i}"));
    }
    let a = render_env_file(&first);
    let b = render_env_file(&second);
    assert_eq!(a, b);
    let lines: Vec<&str> = a.lines().collect();
    assert_eq!(lines, vec!["A=v3", "AB=v4", "B=v5", "HOME=v1", "LANG=v2", "PATH=v0", "Z9=v6", "_X=v7"]);
}

#[test]
fn render_env_file_orders_by_code_point_not_locale() {
    let mut vars = HashMap::new();
    vars.insert("b".to_string(), "1".to_string());
    vars.insert("B".to_string(), "2".to_string());
    vars.insert("é".to_string(), "3".to_string());
    vars.insert("a".to_string(), "4".to_string());
    let content = render_env_file(&vars);
    assert_eq!(content, "B=2\na=4\nb=1\né=3\n");
}
