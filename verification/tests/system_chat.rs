use let_me_talk::system::chat::PChat;
use let_me_talk::system::colour::Colour;
use let_me_talk::system::message::{Content, PMessage};
use let_me_talk::system::sender::PSender;

fn default_sender() -> PSender {
    PSender::new("Test Sender", "", Colour::black())
}

fn test_message(content: &str) -> PMessage {
    PMessage::new(default_sender(), Content::text(content))
}

#[test]
fn new_chat() {
    let chat = PChat::new();
    assert_eq!(chat.last_message(), None);
}

#[test]
fn send_message() {
    let mut chat = PChat::new();
    let test_message = test_message("Test Message");
    chat.send_message(test_message.clone());
    assert_eq!(chat.last_message(), Some(&test_message));
}

#[test]
fn delete_message() {
    let mut chat = PChat::new();
    let test_message1 = test_message("Test Message1");
    let test_message2 = test_message("Test Message2");

    chat.send_message(test_message1.clone());
    let id = chat.send_message(test_message2.clone());

    assert_eq!(chat.last_message(), Some(&test_message2));

    chat.delete_message(&id);

    assert_eq!(chat.last_message(), Some(&test_message1));
}

#[test]
fn update_message() {
    let mut chat = PChat::new();
    let message = test_message(" Test Message1 ");

    let id1 = chat.send_message(message);

    let Content::Text(text) = chat.messages().get(&id1).unwrap().content().clone();
    chat.update_content(&id1, Content::text(text.trim()));

    let expected_message = test_message("Test Message1");
    assert_eq!(chat.last_message(), Some(&expected_message));

    let sender2 = PSender::new("Test Sender2", "", Colour::black());
    chat.update_sender(&id1, sender2);

    let expected_message = PMessage::new(
        PSender::new("Test Sender2", "", Colour::black()),
        Content::text("Test Message1"),
    );
    assert_eq!(chat.last_message(), Some(&expected_message));
}

#[test]
fn mod_iter_messages() {
    let mut chat = PChat::new();
    let test_message = test_message(" Test Message1 ");

    for _ in 0..2 {
        chat.send_message(test_message.clone());
    }

    let messages = chat.messages();
    for index in 0..messages.len() {
        let entry = messages.get_index(index).unwrap();
        assert_eq!(&entry.1, &test_message);
    }
}
