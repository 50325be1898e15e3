use ironclaw::registry::{CatalogError, Registry, ToolRecord};

fn record(name: &str, description: &str, binary_path: &str, handler: &str) -> ToolRecord {
    ToolRecord {
        name: name.to_owned(),
        description: description.to_owned(),
        binary_path: binary_path.to_owned(),
        handler: handler.to_owned(),
        parameters: "{\"type\":\"object\"}".to_owned(),
    }
}

#[test]
fn load_accepts_unique_names() {
    let records = vec![
        record("echo", "echoes the input", "tools/echo.wasm", "run"),
        record("sum", "adds numbers", "tools/sum.wasm", "run"),
    ];
    let registry = Registry::load(records);
    assert!(registry.is_ok());
    assert_eq!(registry.unwrap().len(), 2);
}

#[test]
fn load_accepts_empty_catalog() {
    let registry = Registry::load(Vec::new());
    assert!(registry.is_ok());
    assert_eq!(registry.unwrap().len(), 0);
}

#[test]
fn load_rejects_duplicate_names() {
    let records = vec![
        record("echo", "echoes the input", "tools/echo.wasm", "run"),
        record("sum", "adds numbers", "tools/sum.wasm", "run"),
        record("echo", "a second echo", "tools/echo2.wasm", "go"),
    ];
    match Registry::load(records) {
        Err(e) => assert!(e == CatalogError::ParseFailed),
        Ok(_) => panic!("a duplicated name must reject the catalog source"),
    }
}

#[test]
fn lookup_finds_every_registered_name() {
    let records = vec![
        record("echo", "echoes the input", "tools/echo.wasm", "run"),
        record("sum", "adds numbers", "tools/sum.wasm", "go"),
    ];
    let registry = Registry::load(records).unwrap();

    let echo = registry.lookup(&"echo".to_owned()).expect("echo is registered");
    assert_eq!(echo.name, "echo");
    assert_eq!(echo.description, "echoes the input");
    assert_eq!(echo.binary_path, "tools/echo.wasm");
    assert_eq!(echo.handler, "run");

    let sum = registry.lookup(&"sum".to_owned()).expect("sum is registered");
    assert_eq!(sum.binary_path, "tools/sum.wasm");
    assert_eq!(sum.handler, "go");
}

#[test]
fn lookup_misses_unregistered_names() {
    let records = vec![record("echo", "echoes the input", "tools/echo.wasm", "run")];
    let registry = Registry::load(records).unwrap();
    assert!(registry.lookup(&"ghost_tool".to_owned()).is_none());
    assert!(registry.lookup(&"".to_owned()).is_none());
    assert!(registry.lookup(&"ECHO".to_owned()).is_none());
}

#[test]
fn record_at_walks_in_registration_order() {
    let records = vec![
        record("a", "first", "a.wasm", "run"),
        record("b", "second", "b.wasm", "run"),
    ];
    let registry = Registry::load(records).unwrap();
    assert_eq!(registry.record_at(0).name, "a");
    assert_eq!(registry.record_at(1).name, "b");
}
