use rust_client::batch::{batch_outcome, split_queries};
use rust_client::cli::OutputFormat;
use rust_client::client::{describe_query, health_url, normalize_base_url, query_url, tables_query};
use rust_client::output::OutputFormatter;

#[test]
fn batch_continues_past_an_error() {
    let f = OutputFormatter::new(OutputFormat::Raw, false);
    let outcomes = vec![Ok("one".to_string()), Err("bad".to_string()), Ok("three".to_string())];
    let steps: Vec<_> = outcomes.iter().map(|o| batch_outcome(&f, false, o)).collect();
    assert_eq!(steps[0].out, "one\n");
    assert_eq!(steps[0].err, "");
    assert_eq!(steps[1].out, "");
    assert_eq!(steps[1].err, "❌ Failed to execute query: bad\n");
    assert_eq!(steps[2].out, "three\n");
    assert!(steps.iter().all(|s| !s.stop));
}

#[test]
fn batch_stops_on_error_when_asked() {
    let f = OutputFormatter::new(OutputFormat::Raw, false);
    assert!(batch_outcome(&f, true, &Err("bad".to_string())).stop);
    assert!(!batch_outcome(&f, true, &Ok("fine".to_string())).stop);
}

#[test]
fn queries_are_split_on_semicolons() {
    assert_eq!(split_queries("SELECT 1; ;\n SELECT 2 ;"), vec!["SELECT 1".to_string(), "SELECT 2".to_string()]);
    assert_eq!(split_queries(""), Vec::<String>::new());
    assert_eq!(split_queries("  \n"), Vec::<String>::new());
    assert_eq!(split_queries("a;b"), vec!["a".to_string(), "b".to_string()]);
}

#[test]
fn server_addresses() {
    assert_eq!(normalize_base_url("http://h:8080//"), "http://h:8080");
    assert_eq!(normalize_base_url("http://h:8080"), "http://h:8080");
    assert_eq!(health_url("http://h"), "http://h/health");
    assert_eq!(query_url("http://h"), "http://h/query");
}

#[test]
fn table_queries() {
    assert_eq!(tables_query(None), "SHOW TABLES");
    assert_eq!(tables_query(Some("user%")), "SHOW TABLES LIKE 'user%'");
    assert_eq!(describe_query("users"), "DESCRIBE users");
}
