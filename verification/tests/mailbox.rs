use quickwit_core::actor::Command;
use quickwit_core::actor::CommandOrMessage;
use quickwit_core::actor::RecvError;
use quickwit_core::actor::SendError;
use quickwit_core::mailbox::create_mailbox;

#[test]
fn messages_are_received_in_send_order() {
    let mut mailbox = create_mailbox::<&str>(4);
    assert_eq!(mailbox.send("a"), Ok(()));
    assert_eq!(mailbox.send("b"), Ok(()));
    assert_eq!(mailbox.send("c"), Ok(()));
    assert_eq!(mailbox.len(), 3);
    assert_eq!(mailbox.recv_timeout(true), Ok(CommandOrMessage::Message("a")));
    assert_eq!(mailbox.recv_timeout(true), Ok(CommandOrMessage::Message("b")));
    assert_eq!(mailbox.send("d"), Ok(()));
    assert_eq!(mailbox.recv_timeout(true), Ok(CommandOrMessage::Message("c")));
    assert_eq!(mailbox.recv_timeout(true), Ok(CommandOrMessage::Message("d")));
    assert_eq!(mailbox.recv_timeout(true), Err(RecvError::Timeout));
}

#[test]
fn commands_are_received_before_messages() {
    let mut mailbox = create_mailbox::<u8>(4);
    assert_eq!(mailbox.send(1), Ok(()));
    assert_eq!(mailbox.send_command(Command::Pause), Ok(()));
    assert_eq!(mailbox.send(2), Ok(()));
    assert_eq!(mailbox.send_command(Command::Resume), Ok(()));
    assert_eq!(mailbox.pending_commands(), 2);
    assert_eq!(
        mailbox.recv_timeout(true),
        Ok(CommandOrMessage::Command(Command::Pause))
    );
    assert_eq!(
        mailbox.recv_timeout(true),
        Ok(CommandOrMessage::Command(Command::Resume))
    );
    assert_eq!(mailbox.recv_timeout(true), Ok(CommandOrMessage::Message(1)));
    assert_eq!(mailbox.recv_timeout(true), Ok(CommandOrMessage::Message(2)));
}

#[test]
fn send_beyond_capacity_is_full_until_a_slot_frees() {
    let mut mailbox = create_mailbox::<u32>(3);
    assert_eq!(mailbox.capacity(), 3);
    for message in 0..3 {
        assert_eq!(mailbox.send(message), Ok(()));
    }
    assert_eq!(mailbox.send(3), Err(SendError::Full(3)));
    assert_eq!(mailbox.len(), 3);
    // Commands are not bounded by the capacity.
    assert_eq!(mailbox.send_command(Command::Observe), Ok(()));
    assert_eq!(
        mailbox.recv_timeout(true),
        Ok(CommandOrMessage::Command(Command::Observe))
    );
    assert_eq!(mailbox.send(3), Err(SendError::Full(3)));
    assert_eq!(mailbox.recv_timeout(true), Ok(CommandOrMessage::Message(0)));
    assert_eq!(mailbox.send(3), Ok(()));
    assert_eq!(mailbox.send(4), Err(SendError::Full(4)));
}

#[test]
fn capacity_of_one() {
    let mut mailbox = create_mailbox::<u32>(1);
    assert_eq!(mailbox.send(1), Ok(()));
    assert_eq!(mailbox.send(2), Err(SendError::Full(2)));
    assert_eq!(mailbox.recv_timeout(true), Ok(CommandOrMessage::Message(1)));
    assert_eq!(mailbox.send(2), Ok(()));
}

#[test]
fn paused_receive_hands_out_commands_only() {
    let mut mailbox = create_mailbox::<u32>(2);
    assert_eq!(mailbox.send(1), Ok(()));
    assert_eq!(mailbox.recv_timeout(false), Err(RecvError::Timeout));
    assert_eq!(mailbox.len(), 1);
    assert_eq!(mailbox.send_command(Command::Resume), Ok(()));
    assert_eq!(
        mailbox.recv_timeout(false),
        Ok(CommandOrMessage::Command(Command::Resume))
    );
    assert_eq!(mailbox.recv_timeout(false), Err(RecvError::Timeout));
    assert_eq!(mailbox.recv_timeout(true), Ok(CommandOrMessage::Message(1)));
}

#[test]
fn receive_is_disconnected_once_no_handle_is_left() {
    let mut mailbox = create_mailbox::<u32>(2);
    assert_eq!(mailbox.handles(), 1);
    assert!(mailbox.is_last_mailbox());
    assert_eq!(mailbox.send(1), Ok(()));
    mailbox.drop_handle();
    assert_eq!(mailbox.handles(), 0);
    assert!(!mailbox.is_last_mailbox());
    // What was sent before the last handle went is still delivered.
    assert_eq!(mailbox.recv_timeout(true), Ok(CommandOrMessage::Message(1)));
    assert_eq!(mailbox.recv_timeout(true), Err(RecvError::Disconnected));
    assert_eq!(mailbox.recv_timeout(false), Err(RecvError::Disconnected));
}

#[test]
fn last_mailbox_is_the_only_handle() {
    let mut mailbox = create_mailbox::<u32>(2);
    assert!(mailbox.is_last_mailbox());
    mailbox.clone_handle();
    assert_eq!(mailbox.handles(), 2);
    assert!(!mailbox.is_last_mailbox());
    mailbox.drop_handle();
    assert!(mailbox.is_last_mailbox());
    assert_eq!(mailbox.recv_timeout(true), Err(RecvError::Timeout));
}

#[test]
fn send_to_a_dropped_inbox_is_disconnected() {
    let mut mailbox = create_mailbox::<u32>(2);
    assert_eq!(mailbox.send(1), Ok(()));
    assert_eq!(mailbox.send_command(Command::Pause), Ok(()));
    mailbox.drop_inbox();
    assert_eq!(mailbox.len(), 0);
    assert_eq!(mailbox.pending_commands(), 0);
    assert_eq!(mailbox.send(2), Err(SendError::Disconnected(2)));
    assert_eq!(
        mailbox.send_command(Command::Quit),
        Err(SendError::Disconnected(Command::Quit))
    );
    assert_eq!(mailbox.len(), 0);
}
