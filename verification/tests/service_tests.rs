use embedding_server::config::Args;
use embedding_server::handlers::hello;
use embedding_server::provision::schema_target;

#[test]
fn the_health_probe_is_a_fixed_200() {
    let rep = hello();
    assert_eq!(rep.status, 200);
    assert_eq!(rep.body, "Hello world!");
}

#[test]
fn the_bind_address_defaults_apply() {
    let a = Args::new("e".to_string(), "l".to_string(), None, None);
    assert_eq!(a.host, "127.0.0.1");
    assert_eq!(a.port, 8080);
    assert_eq!(a.embeddings_model, "e");
    assert_eq!(a.llm_model, "l");
}

#[test]
fn given_bind_options_are_kept() {
    let a = Args::new("e".to_string(), "l".to_string(), Some("0.0.0.0".to_string()), Some(9999));
    assert_eq!(a.host, "0.0.0.0");
    assert_eq!(a.port, 9999);
}

#[test]
fn the_schema_load_target_is_fixed() {
    let t = schema_target();
    assert_eq!(t.url, "http://0.0.0.0:8000/sql");
    assert_eq!(t.namespace, "kaig-demo");
    assert_eq!(t.database, "main");
    assert_eq!(t.username, "root");
    assert_eq!(t.password, "root");
}
