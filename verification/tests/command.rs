use caydence::command::{handle_connection, ClientCommand, WorkerMessage};

const ALL: [ClientCommand; 4] = [
    ClientCommand::Toggle,
    ClientCommand::Time,
    ClientCommand::Skip,
    ClientCommand::Pause,
];

#[test]
fn the_four_words_are_the_four_commands() {
    assert_eq!(ClientCommand::parse("toggle"), Some(ClientCommand::Toggle));
    assert_eq!(ClientCommand::parse("time"), Some(ClientCommand::Time));
    assert_eq!(ClientCommand::parse("skip"), Some(ClientCommand::Skip));
    assert_eq!(ClientCommand::parse("pause"), Some(ClientCommand::Pause));
}

#[test]
fn each_command_has_its_word() {
    assert_eq!(ClientCommand::Toggle.token(), "toggle");
    assert_eq!(ClientCommand::Time.token(), "time");
    assert_eq!(ClientCommand::Skip.token(), "skip");
    assert_eq!(ClientCommand::Pause.token(), "pause");
}

#[test]
fn a_word_parses_back_to_its_command() {
    for command in ALL {
        assert_eq!(ClientCommand::parse(command.token()), Some(command));
    }
}

#[test]
fn anything_else_is_no_command() {
    assert_eq!(ClientCommand::parse(""), None);
    assert_eq!(ClientCommand::parse("Skip"), None);
    assert_eq!(ClientCommand::parse("skip\n"), None);
    assert_eq!(ClientCommand::parse(" pause"), None);
    assert_eq!(ClientCommand::parse("change"), None);
    assert_eq!(ClientCommand::parse("toggle time"), None);
}

#[test]
fn a_command_is_handed_on_and_acknowledged() {
    for command in ALL {
        let reply = handle_connection(command.token());
        assert_eq!(reply.command, Some(command));
        assert_eq!(reply.response, "success");
    }
}

#[test]
fn an_unknown_text_is_rejected_with_its_own_words() {
    let reply = handle_connection("dance");
    assert_eq!(reply.command, None);
    assert_eq!(reply.response, "invalid message: dance");
    let empty = handle_connection("");
    assert_eq!(empty.command, None);
    assert_eq!(empty.response, "invalid message: ");
    let padded = handle_connection("skip ");
    assert_eq!(padded.command, None);
    assert_eq!(padded.response, "invalid message: skip ");
}

#[test]
fn the_short_vocabulary_maps_onto_commands() {
    assert_eq!(WorkerMessage::TogglePomo.command(), ClientCommand::Toggle);
    assert_eq!(WorkerMessage::Time.command(), ClientCommand::Time);
    assert_eq!(WorkerMessage::ChangeWallpaper.command(), ClientCommand::Skip);
}

#[test]
fn the_short_vocabulary_has_three_words() {
    assert_eq!(WorkerMessage::parse("change"), Some(WorkerMessage::ChangeWallpaper));
    assert_eq!(WorkerMessage::parse("toggle"), Some(WorkerMessage::TogglePomo));
    assert_eq!(WorkerMessage::parse("time"), Some(WorkerMessage::Time));
    assert_eq!(WorkerMessage::parse("skip"), None);
    assert_eq!(WorkerMessage::parse("pause"), None);
    assert_eq!(WorkerMessage::parse(""), None);
    assert_eq!(WorkerMessage::parse("Change"), None);
}

#[test]
fn a_short_word_parses_back_to_its_message() {
    let all = [WorkerMessage::TogglePomo, WorkerMessage::Time, WorkerMessage::ChangeWallpaper];
    for message in all {
        assert_eq!(WorkerMessage::parse(message.token()), Some(message));
    }
    assert_eq!(WorkerMessage::ChangeWallpaper.token(), "change");
    assert_eq!(WorkerMessage::TogglePomo.token(), "toggle");
    assert_eq!(WorkerMessage::Time.token(), "time");
}
