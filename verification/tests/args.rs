use colb::args::{ArgStack, Token};

fn strings(items: &[&str]) -> Vec<String> {
    items.iter().map(|s| s.to_string()).collect()
}

#[test]
fn default_stack_is_empty() {
    let stack = ArgStack::default();
    assert!(stack.tokens().is_empty());
}

#[test]
fn arg_appends_in_order() {
    let mut stack = ArgStack::default();
    stack.arg("--log-base").arg(String::from("log"));
    let owned = String::from("x");
    stack.arg(&owned);
    assert_eq!(stack.tokens(), &strings(&["--log-base", "log", "x"]));
}

#[test]
fn arg_keeps_duplicates_and_empty_tokens() {
    let mut stack = ArgStack::default();
    stack.arg("a");
    stack.arg("a");
    stack.arg("");
    assert_eq!(stack.tokens(), &strings(&["a", "a", ""]));
}

#[test]
fn args_appends_all_after_existing() {
    let mut stack = ArgStack::default();
    stack.arg("first");
    stack.args(&["a", "b"]);
    stack.args(&[String::from("c")]);
    let none: [&str; 0] = [];
    stack.args(&none);
    assert_eq!(stack.tokens(), &strings(&["first", "a", "b", "c"]));
    assert_eq!(stack.into_tokens(), strings(&["first", "a", "b", "c"]));
}

#[test]
fn token_text_is_the_string_itself() {
    assert_eq!("abc".to_token(), "abc");
    assert_eq!(String::from("abc").to_token(), "abc");
    assert_eq!((&String::from("abc")).to_token(), "abc");
}
