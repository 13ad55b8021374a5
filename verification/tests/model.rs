use let_me_talk::chat::{Chat, CycleDirection};
use let_me_talk::chats::{Chats, NotFoundError};
use let_me_talk::colours::Rgb;
use let_me_talk::data::AppState;
use let_me_talk::decimal::decimal_string;
use let_me_talk::personas::{default_persona, Persona, Personas};
use let_me_talk::storage::{chat_key, chats_key, personas_key};

#[test]
fn seeded_registry() {
    let personas = Personas::new(default_persona());
    assert_eq!(personas.count(), 1);
    let (id, persona) = personas.get_index(0).unwrap();
    assert_eq!(persona.name, "Me");
    assert_eq!(persona.colour, Rgb(0x49, 0x55, 0x65));
    assert_eq!(personas.get_index_of(id), Some(0));
    assert_eq!(personas.get(id).unwrap().name, "Me");
}

#[test]
fn added_persona_ids_are_fresh() {
    let mut personas = Personas::new(default_persona());
    let (first_id, _) = personas.get_index(0).unwrap();
    let coder_id = personas.push(Persona {
        name: "Coder".to_string(),
        colour: Rgb(10, 20, 30),
    });
    assert_ne!(coder_id, first_id);
    assert_eq!(personas.count(), 2);
    let artist_id = personas.push(Persona {
        name: "Artist".to_string(),
        colour: Rgb(1, 2, 3),
    });
    assert_ne!(artist_id, coder_id);
    assert_ne!(artist_id, first_id);
    assert_eq!(personas.count(), 3);
    assert_eq!(personas.get(coder_id).unwrap().name, "Coder");
    assert_eq!(personas.get_index_of(artist_id), Some(2));
}

#[test]
fn fresh_chat_state() {
    let chat = Chat::new(7);
    assert_eq!(chat.added_personas(), vec![7]);
    assert_eq!(chat.active_persona(), 7);
    assert!(chat.messages().is_empty());
    assert_eq!(chat.current_message(), "");
}

#[test]
fn send_appends_and_clears_draft() {
    let mut chat = Chat::new(7);
    chat.set_current_message("hello".to_string());
    let message = chat.send();
    assert_eq!(chat.messages().len(), 1);
    assert_eq!(message.persona, 7);
    assert_eq!(message.msg, "hello");
    assert_eq!(chat.messages()[0].msg, "hello");
    assert_eq!(chat.current_message(), "");
}

#[test]
fn try_send_with_empty_draft_is_a_no_op() {
    let mut chat = Chat::new(7);
    assert_eq!(chat.try_send(), None);
    assert_eq!(chat.messages().len(), 0);
    chat.set_current_message("hi".to_string());
    let sent = chat.try_send().unwrap();
    assert_eq!(sent.persona, 7);
    assert_eq!(chat.messages().len(), 1);
}

#[test]
fn message_ids_are_distinct() {
    let mut chat = Chat::new(7);
    chat.set_current_message("one".to_string());
    let first = chat.send();
    chat.set_current_message("two".to_string());
    let second = chat.send();
    assert_ne!(first.uuid, second.uuid);
}

#[test]
fn add_persona_switches_and_avoids_duplicates() {
    let mut chat = Chat::new(7);
    assert!(chat.add_persona(9));
    assert_eq!(chat.added_personas(), vec![7, 9]);
    assert_eq!(chat.active_persona(), 9);

    // Adding a present persona still switches to it, without duplicating.
    assert!(!chat.add_persona(7));
    assert_eq!(chat.added_personas(), vec![7, 9]);
    assert_eq!(chat.active_persona(), 7);
}

#[test]
fn cycle_wraps_both_ways() {
    let mut chat = Chat::new(1);
    chat.add_persona(2);
    chat.add_persona(3);
    assert_eq!(chat.active_persona(), 3);

    // Next from the last persona wraps to the first.
    assert_eq!(chat.cycle_active_persona(CycleDirection::Next), 1);
    // Prev from the first persona wraps to the last.
    assert_eq!(chat.cycle_active_persona(CycleDirection::Prev), 3);
    assert_eq!(chat.cycle_active_persona(CycleDirection::Prev), 2);
    assert_eq!(chat.cycle_active_persona(CycleDirection::Next), 3);
}

#[test]
fn rename_replaces_the_name() {
    let mut chat = Chat::new(1);
    chat.rename("Plans".to_string());
    assert_eq!(chat.name(), "Plans");
}

#[test]
fn delete_active_removes_the_chat() {
    let mut chats = Chats::new();
    let first = Chat::new(1);
    let first_id = first.uuid();
    chats.new_chat(first);
    let second = Chat::new(1);
    let second_id = second.uuid();
    chats.new_chat(second);

    assert_eq!(chats.active_chat_uuid(), Some(second_id));
    chats.delete_active();

    assert_eq!(chats.active_chat_uuid(), None);
    assert!(chats.active_chat().is_none());
    let remaining: Vec<u128> = chats.chats().iter().map(|c| c.uuid()).collect();
    assert_eq!(remaining, vec![first_id]);
    assert!(!remaining.contains(&second_id));

    // Deleting with nothing selected changes nothing.
    chats.delete_active();
    assert_eq!(chats.chats().len(), 1);
}

#[test]
fn set_active_chat_reports_absent_ids() {
    let mut chats = Chats::new();
    let chat = Chat::new(1);
    let id = chat.uuid();
    chats.new_chat(chat);

    let absent = id.wrapping_add(1);
    assert_eq!(chats.set_active_chat(absent), Err(NotFoundError));
    assert_eq!(chats.active_chat_uuid(), Some(id));
    assert_eq!(chats.set_active_chat(id), Ok(()));
    assert_eq!(chats.active_chat_uuid(), Some(id));
}

#[test]
fn registry_send_message_uses_the_active_chat() {
    let mut chats = Chats::new();
    let mut chat = Chat::new(4);
    chat.set_current_message("ping".to_string());
    let id = chat.uuid();
    chats.new_chat(chat);

    let sent = chats.send_message().unwrap();
    assert_eq!(sent.persona, 4);
    assert_eq!(sent.msg, "ping");
    assert_eq!(chats.active_chat_uuid(), Some(id));
    assert_eq!(chats.active_chat().unwrap().messages().len(), 1);

    // An empty draft sends nothing.
    assert_eq!(chats.send_message(), None);
    assert_eq!(chats.active_chat().unwrap().messages().len(), 1);
}

#[test]
fn end_to_end_two_personas() {
    let mut state = AppState::load(None, None);
    let (p, _) = state.personas().get_index(0).unwrap();
    let q = state.personas_mut().push(Persona {
        name: "Coder".to_string(),
        colour: Rgb(10, 20, 30),
    });

    let chat = Chat::new(p);
    state.new_chat(chat);

    state
        .chats_mut()
        .active_chat_mut()
        .set_current_message("hello".to_string());
    state.chats_mut().send_message();

    {
        let active = state.active_chat().unwrap();
        assert_eq!(active.messages().len(), 1);
        assert_eq!(active.messages()[0].msg, "hello");
        assert_eq!(active.messages()[0].persona, p);
    }

    state.chats_mut().active_chat_mut().add_persona(q);
    state
        .chats_mut()
        .active_chat_mut()
        .set_current_message("hi".to_string());
    state.chats_mut().send_message();

    let active = state.active_chat().unwrap();
    assert_eq!(active.messages().len(), 2);
    assert_eq!(active.messages()[1].msg, "hi");
    assert_eq!(active.messages()[1].persona, q);
}

#[test]
fn storage_keys() {
    assert_eq!(personas_key(), "ifs_personas");
    assert_eq!(chats_key(), "ifs_chats");
    assert_eq!(chat_key(0), "ifs_chat_0");
    assert_eq!(chat_key(42), "ifs_chat_42");
    assert_eq!(
        chat_key(340282366920938463463374607431768211455),
        "ifs_chat_340282366920938463463374607431768211455"
    );
}

#[test]
fn decimal_rendering() {
    assert_eq!(decimal_string(0), "0");
    assert_eq!(decimal_string(7), "7");
    assert_eq!(decimal_string(10), "10");
    assert_eq!(decimal_string(255), "255");
    assert_eq!(decimal_string(1000001), "1000001");
}

#[test]
fn restore_rejects_ill_formed_records() {
    // A persona registry must hold at least one persona, under unique ids.
    assert!(Personas::from_parts(vec![]).is_none());
    let p = |name: &str| Persona {
        name: name.to_string(),
        colour: Rgb(0, 0, 0),
    };
    assert!(Personas::from_parts(vec![(1, p("a")), (1, p("b"))]).is_none());
    let restored = Personas::from_parts(vec![(1, p("a")), (2, p("b"))]).unwrap();
    assert_eq!(restored.count(), 2);

    // A chat's active persona must be among its added personas.
    assert!(Chat::from_parts(9, "c".to_string(), vec![], vec![1, 2], 3, String::new()).is_none());
    let chat =
        Chat::from_parts(9, "c".to_string(), vec![], vec![1, 2], 2, String::new()).unwrap();
    assert_eq!(chat.uuid(), 9);
    assert_eq!(chat.active_persona(), 2);

    // A chat registry's active pointer must refer to an entry.
    let lone = Chat::from_parts(9, "c".to_string(), vec![], vec![1], 1, String::new()).unwrap();
    assert!(Chats::from_parts(vec![lone], Some(8)).is_none());
    let lone = Chat::from_parts(9, "c".to_string(), vec![], vec![1], 1, String::new()).unwrap();
    let restored = Chats::from_parts(vec![lone], Some(9)).unwrap();
    assert_eq!(restored.active_chat_uuid(), Some(9));
}
