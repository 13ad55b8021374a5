use let_me_talk::system::colour::Colour;
use let_me_talk::system::message::{Content, PMessage};
use let_me_talk::system::messages::PMessages;
use let_me_talk::system::sender::PSender;

fn default_sender() -> PSender {
    PSender::new("Test Sender", "", Colour::black())
}

#[test]
fn new_message() {
    let sender = default_sender();
    let content = Content::text("content");
    let message = PMessage::new(sender.clone(), content.clone());

    assert_eq!(message.sender(), &sender);
    assert_eq!(message.content(), &content);
}

#[test]
fn edit_content() {
    let sender = default_sender();
    let content = Content::text("content");
    let mut message = PMessage::new(sender.clone(), content.clone());

    let Content::Text(mut text) = message.content().clone();
    text.pop();
    message.update_content(Content::Text(text));

    assert_eq!(message.content(), &Content::text("conten"));
}

#[test]
fn edit_sender() {
    let sender = default_sender();
    let content = Content::text("content");
    let mut message = PMessage::new(sender.clone(), content.clone());

    message.update_sender(PSender::new("Updated Sender", "", Colour::black()));

    assert_eq!(
        message.sender(),
        &PSender::new("Updated Sender", "", Colour::black())
    );
}

#[test]
fn messages_iter_messages() {
    let mut messages = PMessages::new();

    for _ in 0..2 {
        let id = uuid::Uuid::new_v4().as_u128();
        messages.insert(
            id,
            PMessage::new(default_sender(), Content::text(&format!("Test Message1 {id}"))),
        );
    }

    for index in 0..messages.len() {
        let entry = messages.get_index(index).unwrap();
        let i = entry.0;
        assert_eq!(
            &entry.1,
            &PMessage::new(default_sender(), Content::text(&format!("Test Message1 {i}")))
        );
    }
}
