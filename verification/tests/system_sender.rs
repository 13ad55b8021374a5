use let_me_talk::system::colour::Colour;
use let_me_talk::system::sender::PSender;

#[test]
fn new_sender() {
    let sender = PSender::new("Test Sender", "A sender for testing", Colour::black());

    assert_eq!(sender.name(), "Test Sender");
    assert_eq!(sender.description(), "A sender for testing");
    assert_eq!(sender.colour(), &Colour::black());
}

#[test]
fn change_sender() {
    let mut sender = PSender::new("Test Sender", "A sender for testing", Colour::black());

    sender.update_name("Changed Sender".to_string());
    assert_eq!(sender.name(), "Changed Sender");

    sender.update_description("Changed sender for testing.".to_string());
    assert_eq!(sender.description(), "Changed sender for testing.");

    sender.update_colour(Colour::black());
    assert_eq!(sender.colour(), &Colour::black());
}
