use customer_auth::reply::{say_hello, say_juvinile_stuff, send_email};

#[test]
fn fixed_replies() {
    let r = say_hello();
    assert_eq!((r.status, r.body.as_str()), (200, "Hello world!"));
    let r = say_juvinile_stuff();
    assert_eq!((r.status, r.body.as_str()), (200, "I am a child"));
}

#[test]
fn send_email_echoes_the_body() {
    let r = send_email("someone@example.com".to_string());
    assert_eq!((r.status, r.body.as_str()), (200, "someone@example.com"));
    let r = send_email(String::new());
    assert_eq!((r.status, r.body.as_str()), (200, ""));
}
