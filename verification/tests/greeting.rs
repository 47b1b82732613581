use deck_commands::greeting::greet;

#[test]
fn greets_world() {
    assert_eq!(greet("World"), "Hello, World! You've been greeted from Rust!");
}

#[test]
fn greets_an_empty_name() {
    assert_eq!(greet(""), "Hello, ! You've been greeted from Rust!");
}

#[test]
fn keeps_the_name_as_it_is() {
    assert_eq!(
        greet("  {} Zoë\n"),
        "Hello,   {} Zoë\n! You've been greeted from Rust!"
    );
}

#[test]
fn puts_the_name_in_once() {
    let name = "Ada";
    let greeting = greet(name);
    assert_eq!(greeting.matches(name).count(), 1);
    assert_eq!(greeting.find(name), Some(7));
    assert_eq!(
        greeting.len(),
        "Hello, ".len() + name.len() + "! You've been greeted from Rust!".len()
    );
}

#[test]
fn a_name_from_the_wording_is_still_put_in_once() {
    assert_eq!(
        greet("Hello, "),
        "Hello, Hello, ! You've been greeted from Rust!"
    );
}
