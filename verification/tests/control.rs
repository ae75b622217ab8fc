use spider::control::{pause, reset, resume, shutdown, Handler};

#[test]
fn control_messages_carry_domain_and_handler() {
    assert_eq!(pause("example.com"), ("example.com".to_string(), Handler::Pause));
    assert_eq!(resume("example.com"), ("example.com".to_string(), Handler::Resume));
    assert_eq!(shutdown("example.com"), ("example.com".to_string(), Handler::Shutdown));
    assert_eq!(reset("example.com"), ("example.com".to_string(), Handler::Start));
}
