//! Decision core of the standalone chat demonstration mode.
//!
//! In that mode the process joins a peer over the same local endpoint and
//! relays lines between the peer and the local console. The surrounding
//! loop reads from both sides and hands each read outcome to [`chat_step`],
//! which decides what to do with it and whether the session goes on; the
//! loop performs the printing and forwarding it is told to.

use vstd::prelude::*;

verus! {

/// The outcome of one line read: a closed stream, a full line, or a read
/// failure.
#[derive(Debug, PartialEq, Eq)]
pub enum LineRead {
    Eof,
    Line(String),
    Failed,
}

/// One thing the session loop observed: a read outcome from the peer, or
/// one from the local console.
#[derive(Debug, PartialEq, Eq)]
pub enum ChatEvent {
    Peer(LineRead),
    Local(LineRead),
}

/// What the session loop must do with an observation.
#[derive(Debug, PartialEq, Eq)]
pub enum ChatAction {
    /// Tell the user that the peer hung up.
    AnnounceDisconnect,
    /// Show a line that arrived from the peer.
    ShowLine(String),
    /// Forward a locally typed line to the peer.
    Forward(String),
    /// Tell the user that reading from the peer failed.
    ReportReadError,
    /// Tell the user that reading the local console failed.
    ReportInputError,
    /// Nothing to show or send.
    Quiet,
}

/// Mathematical model of a chat action, with payloads as character
/// sequences.
pub enum ChatActionView {
    AnnounceDisconnect,
    ShowLine(Seq<char>),
    Forward(Seq<char>),
    ReportReadError,
    ReportInputError,
    Quiet,
}

impl View for ChatAction {
    type V = ChatActionView;

    open spec fn view(&self) -> ChatActionView {
        match self {
            ChatAction::AnnounceDisconnect => ChatActionView::AnnounceDisconnect,
            ChatAction::ShowLine(line) => ChatActionView::ShowLine(line@),
            ChatAction::Forward(line) => ChatActionView::Forward(line@),
            ChatAction::ReportReadError => ChatActionView::ReportReadError,
            ChatAction::ReportInputError => ChatActionView::ReportInputError,
            ChatAction::Quiet => ChatActionView::Quiet,
        }
    }
}

/// Whether the session goes on after an observation: only a successfully
/// read line keeps it alive; end-of-stream and failures on either side end
/// it.
pub open spec fn chat_continues(e: ChatEvent) -> bool {
    match e {
        ChatEvent::Peer(LineRead::Line(_)) => true,
        ChatEvent::Local(LineRead::Line(_)) => true,
        _ => false,
    }
}

/// The action an observation calls for: peer lines are shown, local lines
/// are forwarded, the peer closing is announced, read failures on either
/// side are reported, and a closed console ends the session quietly.
pub open spec fn chat_action_of(e: ChatEvent) -> ChatActionView {
    match e {
        ChatEvent::Peer(LineRead::Eof) => ChatActionView::AnnounceDisconnect,
        ChatEvent::Peer(LineRead::Line(line)) => ChatActionView::ShowLine(line@),
        ChatEvent::Peer(LineRead::Failed) => ChatActionView::ReportReadError,
        ChatEvent::Local(LineRead::Eof) => ChatActionView::Quiet,
        ChatEvent::Local(LineRead::Line(line)) => ChatActionView::Forward(line@),
        ChatEvent::Local(LineRead::Failed) => ChatActionView::ReportInputError,
    }
}

/// Decides one step of the chat session: what to do with the observation,
/// and whether the session goes on.
pub fn chat_step(event: ChatEvent) -> (step: (bool, ChatAction))
    ensures
        step.0 == chat_continues(event),
        step.1@ == chat_action_of(event),
{
    match event {
        ChatEvent::Peer(LineRead::Eof) => (false, ChatAction::AnnounceDisconnect),
        ChatEvent::Peer(LineRead::Line(line)) => (true, ChatAction::ShowLine(line)),
        ChatEvent::Peer(LineRead::Failed) => (false, ChatAction::ReportReadError),
        ChatEvent::Local(LineRead::Eof) => (false, ChatAction::Quiet),
        ChatEvent::Local(LineRead::Line(line)) => (true, ChatAction::Forward(line)),
        ChatEvent::Local(LineRead::Failed) => (false, ChatAction::ReportInputError),
    }
}

/// The two roles the demonstration process can take at startup.
#[derive(Clone, Copy, Debug, PartialEq, Eq, Structural)]
pub enum StartupMode {
    /// A peer was already listening: join it as a client.
    Client,
    /// No peer was reachable: become the listener and wait for one.
    Listener,
}

/// Decides the startup role from the outcome of the connection attempt:
/// a successful connection joins as a client, a failed one falls back to
/// listening.
pub fn startup_mode(connected: bool) -> (mode: StartupMode)
    ensures
        mode == (if connected {
            StartupMode::Client
        } else {
            StartupMode::Listener
        }),
{
    if connected {
        StartupMode::Client
    } else {
        StartupMode::Listener
    }
}

} // verus!
