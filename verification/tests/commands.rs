use shell_bridge::commands::{ping, GreetResponse};
use shell_bridge::text::same_text;

#[test]
fn ping_greets_by_name() {
    let reply = ping(String::from("World"));
    assert_eq!(reply.name, "World");
    assert_eq!(reply.greeting, "Hello, World! You've been greeted from Rust!");
}

#[test]
fn ping_accepts_the_empty_name() {
    let reply = ping(String::new());
    assert_eq!(reply.name, "");
    assert_eq!(reply.greeting, "Hello, ! You've been greeted from Rust!");
}

#[test]
fn ping_keeps_unicode_names() {
    let name = "Zoë 🦀 名前";
    let reply = ping(String::from(name));
    assert_eq!(reply.name, name);
    assert_eq!(reply.greeting, format!("Hello, {}! You've been greeted from Rust!", name));
}

#[test]
fn ping_keeps_very_long_names() {
    let name = "x".repeat(100_000);
    let reply = ping(name.clone());
    assert_eq!(reply.name, name);
    assert_eq!(reply.greeting.len(), name.len() + "Hello, ! You've been greeted from Rust!".len());
    assert!(reply.greeting.starts_with("Hello, xxx"));
    assert!(reply.greeting.ends_with("xxx! You've been greeted from Rust!"));
}

#[test]
fn ping_does_not_interpret_braces_in_the_name() {
    let reply = ping(String::from("{name}"));
    assert_eq!(reply.name, "{name}");
    assert_eq!(reply.greeting, "Hello, {name}! You've been greeted from Rust!");
}

#[test]
fn greet_response_compares_by_fields() {
    let a = ping(String::from("a"));
    let b = GreetResponse {
        greeting: String::from("Hello, a! You've been greeted from Rust!"),
        name: String::from("a"),
    };
    assert_eq!(a, b);
    assert_ne!(a, ping(String::from("b")));
}

#[test]
fn same_text_compares_characters() {
    assert!(same_text("main", "main"));
    assert!(same_text("", ""));
    assert!(!same_text("main", "Main"));
    assert!(!same_text("main", "main "));
    assert!(!same_text("", "a"));
    assert!(same_text("名前", "名前"));
    assert!(!same_text("名前", "名"));
}
