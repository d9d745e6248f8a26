use hello_wasm::message;

#[test]
fn message_is_the_fixed_greeting() {
    assert_eq!(message(), "Hello, WASM!");
}

#[test]
fn message_is_the_same_on_every_call() {
    assert_eq!(message(), message());
}
