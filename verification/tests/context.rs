use freshfetch::context::{same_text, Field, Scalar, ScriptContext, Value};

#[test]
fn new_context_holds_nothing() {
    let ctx = ScriptContext::new();
    assert_eq!(ctx.len(), 0);
    assert_eq!(ctx.get("memory"), None);
    assert!(ctx.prelude_sources().is_empty());
}

#[test]
fn published_value_is_found_under_its_name() {
    let mut ctx = ScriptContext::new();
    ctx.publish("infoWidth".to_string(), Value::Integer(3));
    ctx.publish("info".to_string(), Value::Text("abc".to_string()));
    assert_eq!(ctx.get("infoWidth"), Some(&Value::Integer(3)));
    assert_eq!(ctx.get("info"), Some(&Value::Text("abc".to_string())));
    assert_eq!(ctx.get("infoHeight"), None);
    assert_eq!(ctx.len(), 2);
}

#[test]
fn later_publish_replaces_and_never_merges() {
    let mut ctx = ScriptContext::new();
    ctx.publish("shell".to_string(), Value::Record(vec![Field::text("name", "zsh")]));
    ctx.publish("other".to_string(), Value::Integer(1));
    ctx.publish("shell".to_string(), Value::Record(vec![Field::text("version", "5.9")]));
    assert_eq!(ctx.len(), 2);
    assert_eq!(ctx.get("shell"), Some(&Value::Record(vec![Field::text("version", "5.9")])));
    assert_eq!(ctx.get("other"), Some(&Value::Integer(1)));
    assert_eq!(ctx.binding(0).name, "shell");
    assert_eq!(ctx.binding(1).name, "other");
}

#[test]
fn fields_hold_what_they_were_made_of() {
    assert_eq!(
        Field::integer("max", 16777216),
        Field { name: "max".to_string(), value: Scalar::Integer(16777216) }
    );
    assert_eq!(
        Field::text("name", "bash"),
        Field { name: "name".to_string(), value: Scalar::Text("bash".to_string()) }
    );
}

#[test]
fn preludes_are_kept_in_order() {
    let ctx = ScriptContext::with_preludes(vec!["a = 1".to_string(), "b = a".to_string()]);
    assert_eq!(ctx.prelude_sources(), &vec!["a = 1".to_string(), "b = a".to_string()]);
    assert_eq!(ctx.len(), 0);
}

#[test]
fn same_text_compares_characters() {
    assert!(same_text("zsh", "zsh"));
    assert!(!same_text("zsh", "Zsh"));
    assert!(same_text("", ""));
}
