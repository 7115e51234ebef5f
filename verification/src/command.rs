//! The commands that a client sends, and the words that carry them over the
//! control channel.

use crate::text::same_text;
use vstd::prelude::*;
use vstd::string::StringExecFns;

verus! {

/// What a client asks of the running daemon.
#[derive(Clone, Copy, Debug, PartialEq, Eq, Structural)]
pub enum ClientCommand {
    /// Switch between the regular rotation and the cadence.
    Toggle,
    /// Tell how much time is left in the current job.
    Time,
    /// End the current job now.
    Skip,
    /// Freeze the current job, or let a frozen one run on.
    Pause,
}

/// The three messages of the short vocabulary: clients that know neither
/// `skip` nor `pause` say these.
#[derive(Clone, Copy, Debug, PartialEq, Eq, Structural)]
pub enum WorkerMessage {
    TogglePomo,
    Time,
    ChangeWallpaper,
}

impl WorkerMessage {
    /// The command that does what the message asks for.
    pub open spec fn command_spec(self) -> ClientCommand {
        match self {
            WorkerMessage::TogglePomo => ClientCommand::Toggle,
            WorkerMessage::Time => ClientCommand::Time,
            WorkerMessage::ChangeWallpaper => ClientCommand::Skip,
        }
    }

    /// The word that stands for the message on the control channel.
    pub open spec fn token_spec(self) -> Seq<char> {
        match self {
            WorkerMessage::TogglePomo => "toggle"@,
            WorkerMessage::Time => "time"@,
            WorkerMessage::ChangeWallpaper => "change"@,
        }
    }

    /// The message that a word stands for, if it is one of the three.
    pub open spec fn parse_spec(word: Seq<char>) -> Option<WorkerMessage> {
        if word == "change"@ {
            Some(WorkerMessage::ChangeWallpaper)
        } else if word == "toggle"@ {
            Some(WorkerMessage::TogglePomo)
        } else if word == "time"@ {
            Some(WorkerMessage::Time)
        } else {
            None
        }
    }

    /// The command that does what the message asks for.
    pub fn command(self) -> (command: ClientCommand)
        ensures
            command == self.command_spec(),
    {
        match self {
            WorkerMessage::TogglePomo => ClientCommand::Toggle,
            WorkerMessage::Time => ClientCommand::Time,
            WorkerMessage::ChangeWallpaper => ClientCommand::Skip,
        }
    }

    /// The word that stands for the message on the control channel.
    pub fn token(&self) -> (word: &'static str)
        ensures
            word@ == self.token_spec(),
    {
        match self {
            WorkerMessage::TogglePomo => "toggle",
            WorkerMessage::Time => "time",
            WorkerMessage::ChangeWallpaper => "change",
        }
    }

    /// Decodes a word of the short vocabulary.
    pub fn parse(word: &str) -> (message: Option<WorkerMessage>)
        ensures
            message == WorkerMessage::parse_spec(word@),
    {
        if same_text(word, "change") {
            Some(WorkerMessage::ChangeWallpaper)
        } else if same_text(word, "toggle") {
            Some(WorkerMessage::TogglePomo)
        } else if same_text(word, "time") {
            Some(WorkerMessage::Time)
        } else {
            None
        }
    }
}

impl ClientCommand {
    /// The word that stands for the command on the control channel.
    pub open spec fn token_spec(self) -> Seq<char> {
        match self {
            ClientCommand::Toggle => "toggle"@,
            ClientCommand::Time => "time"@,
            ClientCommand::Skip => "skip"@,
            ClientCommand::Pause => "pause"@,
        }
    }

    /// The command that a received text stands for, if it is one of the
    /// four words, exactly and with nothing around it.
    pub open spec fn parse_spec(message: Seq<char>) -> Option<ClientCommand> {
        if message == "skip"@ {
            Some(ClientCommand::Skip)
        } else if message == "toggle"@ {
            Some(ClientCommand::Toggle)
        } else if message == "time"@ {
            Some(ClientCommand::Time)
        } else if message == "pause"@ {
            Some(ClientCommand::Pause)
        } else {
            None
        }
    }

    /// The word that stands for the command on the control channel.
    pub fn token(&self) -> (word: &'static str)
        ensures
            word@ == self.token_spec(),
    {
        match self {
            ClientCommand::Toggle => "toggle",
            ClientCommand::Time => "time",
            ClientCommand::Skip => "skip",
            ClientCommand::Pause => "pause",
        }
    }

    /// Decodes what a client sent.
    pub fn parse(message: &str) -> (command: Option<ClientCommand>)
        ensures
            command == ClientCommand::parse_spec(message@),
    {
        if same_text(message, "skip") {
            Some(ClientCommand::Skip)
        } else if same_text(message, "toggle") {
            Some(ClientCommand::Toggle)
        } else if same_text(message, "time") {
            Some(ClientCommand::Time)
        } else if same_text(message, "pause") {
            Some(ClientCommand::Pause)
        } else {
            None
        }
    }
}

/// A command's word decodes to that command.
pub proof fn lemma_token_parses_back(command: ClientCommand)
    ensures
        ClientCommand::parse_spec(command.token_spec()) == Some(command),
{
    reveal_strlit("skip");
    reveal_strlit("toggle");
    reveal_strlit("time");
    reveal_strlit("pause");
    assert("time"@[0] != "skip"@[0]);
    assert("time"@.len() != "toggle"@.len());
}

/// A message's word decodes to that message.
pub proof fn lemma_short_token_parses_back(message: WorkerMessage)
    ensures
        WorkerMessage::parse_spec(message.token_spec()) == Some(message),
{
    reveal_strlit("change");
    reveal_strlit("toggle");
    reveal_strlit("time");
    assert("toggle"@[0] != "change"@[0]);
    assert("time"@.len() != "toggle"@.len());
}

/// What the listener does with one received text: the command to hand to
/// the scheduler, if there is one, and the answer for the client.
#[derive(Clone, Debug, PartialEq, Eq)]
pub struct Reply {
    pub command: Option<ClientCommand>,
    pub response: String,
}

/// The answer that a client gets to `message`.
pub open spec fn response_spec(message: Seq<char>) -> Seq<char> {
    if ClientCommand::parse_spec(message).is_some() {
        "success"@
    } else {
        "invalid message: "@ + message
    }
}

/// Decides what becomes of one received text. A text that is no command is
/// answered with a rejection that quotes it, and nothing is handed on.
pub fn handle_connection(message: &str) -> (reply: Reply)
    ensures
        reply.command == ClientCommand::parse_spec(message@),
        reply.response@ == response_spec(message@),
{
    let command = ClientCommand::parse(message);
    let response = if command.is_some() {
        "success".to_owned()
    } else {
        "invalid message: ".to_owned().concat(message)
    };
    Reply { command, response }
}

} // verus!
