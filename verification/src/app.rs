//! The coordinator: the applet's state, the events it takes and the commands
//! it gives. [`AppModel::update`] computes what [`crate::model::step`] says.

use crate::channels::{
    channel_views, clone_channels, text_of, Channel, ChannelError, ChannelErrorView, ChannelList,
    ChannelView,
};
use crate::model::{
    add_form_closed, bus_message, channels_loaded, confirm_delete_station, delete_question,
    edit_form_closed, header_of, initial, is_playing, lemma_initial_is_well_formed,
    lemma_step_keeps_well_formed, loaded_message, play_channel, play_finished,
    player_state_changed, row_message, save_edit_station, save_failure_text, save_finished,
    save_new_station, screen_of, start_edit_station, step, stop_commands, stop_playback,
    toggle_add_station, toggle_playback, well_formed, CommandView, MessageView, ModelView,
    PendingView, Screen,
};
use crate::player::{BusNotice, PlayState, Player};
use crate::validation::{validate_station, ValidationError};
use vstd::prelude::*;
use vstd::string::StringExecFns;

verus! {

/// An event: what the user asked for, what the engine reported, or the
/// answer to a command.
#[derive(Debug)]
pub enum Message {
    /// Stop playback if the engine plays.
    TogglePlayback,
    /// The engine reported its state.
    PlayerStateChanged(PlayState),
    /// The engine reported stream metadata.
    MetadataUpdated,
    /// Play the station at this index.
    PlayChannel(usize),
    /// The answer to [`Command::Play`] for the station at `idx`.
    PlayFinished { idx: usize, started: bool },
    /// Stop playback and clear the current station.
    StopPlayback,
    /// The station list was loaded.
    ChannelsLoaded(Vec<Channel>),
    /// The station list could not be loaded.
    ChannelError(String),
    /// Open or close the form for a new station.
    ToggleAddStation,
    NewStationNameChanged(String),
    NewStationUrlChanged(String),
    /// Submit the form for a new station.
    SaveNewStation,
    CancelAddStation,
    /// Open the edit form for the station at this index.
    StartEditStation(usize),
    EditStationNameChanged(String),
    EditStationUrlChanged(String),
    /// Submit the edit form.
    SaveEditStation,
    CancelEditStation,
    /// Ask for confirmation before the station at this index is deleted.
    StartDeleteStation(usize),
    ConfirmDeleteStation,
    CancelDeleteStation,
    /// The answer to [`Command::Save`].
    SaveFinished(Result<(), ChannelError>),
}

/// The outcome of a write as plain values.
pub open spec fn save_outcome_view(outcome: Result<(), ChannelError>) -> Result<
    (),
    ChannelErrorView,
> {
    match outcome {
        Ok(_) => Ok(()),
        Err(reason) => Err(reason@),
    }
}

impl View for Message {
    type V = MessageView;

    open spec fn view(&self) -> MessageView {
        match self {
            Message::TogglePlayback => MessageView::TogglePlayback,
            Message::PlayerStateChanged(state) => MessageView::PlayerStateChanged(*state),
            Message::MetadataUpdated => MessageView::MetadataUpdated,
            Message::PlayChannel(idx) => MessageView::PlayChannel(*idx),
            Message::PlayFinished { idx, started } => MessageView::PlayFinished {
                idx: *idx,
                started: *started,
            },
            Message::StopPlayback => MessageView::StopPlayback,
            Message::ChannelsLoaded(channels) => MessageView::ChannelsLoaded(
                channel_views(channels@),
            ),
            Message::ChannelError(text) => MessageView::ChannelError(text@),
            Message::ToggleAddStation => MessageView::ToggleAddStation,
            Message::NewStationNameChanged(text) => MessageView::NewStationNameChanged(text@),
            Message::NewStationUrlChanged(text) => MessageView::NewStationUrlChanged(text@),
            Message::SaveNewStation => MessageView::SaveNewStation,
            Message::CancelAddStation => MessageView::CancelAddStation,
            Message::StartEditStation(idx) => MessageView::StartEditStation(*idx),
            Message::EditStationNameChanged(text) => MessageView::EditStationNameChanged(text@),
            Message::EditStationUrlChanged(text) => MessageView::EditStationUrlChanged(text@),
            Message::SaveEditStation => MessageView::SaveEditStation,
            Message::CancelEditStation => MessageView::CancelEditStation,
            Message::StartDeleteStation(idx) => MessageView::StartDeleteStation(*idx),
            Message::ConfirmDeleteStation => MessageView::ConfirmDeleteStation,
            Message::CancelDeleteStation => MessageView::CancelDeleteStation,
            Message::SaveFinished(outcome) => MessageView::SaveFinished(
                save_outcome_view(*outcome),
            ),
        }
    }
}

/// The view of an optional event.
pub open spec fn message_view(message: Option<Message>) -> Option<MessageView> {
    match message {
        Some(event) => Some(event@),
        None => None,
    }
}

/// The outcome of loading as plain values.
pub open spec fn load_outcome_view(outcome: Result<ChannelList, ChannelError>) -> Result<
    Seq<ChannelView>,
    ChannelErrorView,
> {
    match outcome {
        Ok(list) => Ok(list@),
        Err(reason) => Err(reason@),
    }
}

impl Clone for Message {
    fn clone(&self) -> (copy: Self)
        ensures
            copy@ == self@,
    {
        match self {
            Message::TogglePlayback => Message::TogglePlayback,
            Message::PlayerStateChanged(state) => Message::PlayerStateChanged(*state),
            Message::MetadataUpdated => Message::MetadataUpdated,
            Message::PlayChannel(idx) => Message::PlayChannel(*idx),
            Message::PlayFinished { idx, started } => Message::PlayFinished {
                idx: *idx,
                started: *started,
            },
            Message::StopPlayback => Message::StopPlayback,
            Message::ChannelsLoaded(channels) => Message::ChannelsLoaded(clone_channels(channels)),
            Message::ChannelError(text) => Message::ChannelError(text.clone()),
            Message::ToggleAddStation => Message::ToggleAddStation,
            Message::NewStationNameChanged(text) => Message::NewStationNameChanged(text.clone()),
            Message::NewStationUrlChanged(text) => Message::NewStationUrlChanged(text.clone()),
            Message::SaveNewStation => Message::SaveNewStation,
            Message::CancelAddStation => Message::CancelAddStation,
            Message::StartEditStation(idx) => Message::StartEditStation(*idx),
            Message::EditStationNameChanged(text) => Message::EditStationNameChanged(text.clone()),
            Message::EditStationUrlChanged(text) => Message::EditStationUrlChanged(text.clone()),
            Message::SaveEditStation => Message::SaveEditStation,
            Message::CancelEditStation => Message::CancelEditStation,
            Message::StartDeleteStation(idx) => Message::StartDeleteStation(*idx),
            Message::ConfirmDeleteStation => Message::ConfirmDeleteStation,
            Message::CancelDeleteStation => Message::CancelDeleteStation,
            Message::SaveFinished(Ok(_)) => Message::SaveFinished(Ok(())),
            Message::SaveFinished(Err(reason)) => Message::SaveFinished(Err(reason.clone())),
        }
    }
}

impl Message {
    /// The event for a notice on the engine's bus, if it is one to act on.
    pub fn from_bus(notice: BusNotice) -> (message: Option<Message>)
        ensures
            message_view(message) == bus_message(notice),
    {
        match notice {
            BusNotice::StateChanged { from_pipeline, current } => {
                if from_pipeline {
                    Some(Message::PlayerStateChanged(current))
                } else {
                    None
                }
            },
            BusNotice::Tag => Some(Message::MetadataUpdated),
            BusNotice::Error => Some(Message::PlayerStateChanged(PlayState::Null)),
            BusNotice::Other => None,
        }
    }

    /// The event for the outcome of loading the list at start-up.
    pub fn from_load(outcome: Result<ChannelList, ChannelError>) -> (message: Message)
        ensures
            message@ == loaded_message(load_outcome_view(outcome)),
    {
        match outcome {
            Ok(list) => Message::ChannelsLoaded(list.channels),
            Err(reason) => Message::ChannelError(reason.message()),
        }
    }
}

/// What the caller is to do after an event.
#[derive(Debug)]
pub enum Command {
    /// Stop the engine. Its refusal is of no consequence.
    Stop,
    /// Start the address `uri` and answer with [`Message::PlayFinished`] for
    /// `idx`.
    Play { idx: usize, uri: String },
    /// Write the list and answer with [`Message::SaveFinished`].
    Save(ChannelList),
}

impl View for Command {
    type V = CommandView;

    open spec fn view(&self) -> CommandView {
        match self {
            Command::Stop => CommandView::Stop,
            Command::Play { idx, uri } => CommandView::Play { idx: *idx, uri: uri@ },
            Command::Save(list) => CommandView::Save(list@),
        }
    }
}

/// The commands of `list` as plain values, in the same order.
pub open spec fn command_views(list: Seq<Command>) -> Seq<CommandView> {
    Seq::new(list.len(), |i: int| list[i]@)
}

/// A change to the list whose write has not been answered yet.
#[derive(Debug)]
enum Pending {
    Added,
    Edited { idx: usize },
    Deleted { idx: usize, removed: Channel },
}

impl View for Pending {
    type V = PendingView;

    closed spec fn view(&self) -> PendingView {
        match self {
            Pending::Added => PendingView::Added,
            Pending::Edited { idx } => PendingView::Edited { idx: *idx },
            Pending::Deleted { idx, removed } => PendingView::Deleted {
                idx: *idx,
                removed: removed@,
            },
        }
    }
}

/// The awaited change as plain values.
spec fn pending_view(pending: Option<Pending>) -> Option<PendingView> {
    match pending {
        Some(change) => Some(change@),
        None => None,
    }
}

/// The text behind an optional reference to a string.
pub open spec fn text_of_ref(value: Option<&String>) -> Option<Seq<char>> {
    match value {
        Some(text) => Some(text@),
        None => None,
    }
}

/// The text of the line that shows why a form was refused.
pub fn form_error_text(reason: ValidationError) -> (text: String)
    ensures
        text@ == "Error: "@ + reason.message_text(),
{
    String::from_str("Error: ").concat(reason.message())
}

/// The applet's state.
#[derive(Debug)]
pub struct AppModel {
    player: Option<Player>,
    play_state: PlayState,
    channels: Vec<Channel>,
    current_channel_idx: Option<usize>,
    error_message: Option<String>,
    adding_station: bool,
    new_station_name: String,
    new_station_url: String,
    new_station_error: Option<ValidationError>,
    editing_station_idx: Option<usize>,
    edit_station_name: String,
    edit_station_url: String,
    edit_station_error: Option<ValidationError>,
    deleting_station_idx: Option<usize>,
    pending: Option<Pending>,
}

impl View for AppModel {
    type V = ModelView;

    closed spec fn view(&self) -> ModelView {
        ModelView {
            player_available: self.player is Some,
            play_state: self.play_state,
            channels: channel_views(self.channels@),
            current_channel_idx: self.current_channel_idx,
            error_message: text_of(self.error_message),
            adding_station: self.adding_station,
            new_station_name: self.new_station_name@,
            new_station_url: self.new_station_url@,
            new_station_error: self.new_station_error,
            editing_station_idx: self.editing_station_idx,
            edit_station_name: self.edit_station_name@,
            edit_station_url: self.edit_station_url@,
            edit_station_error: self.edit_station_error,
            deleting_station_idx: self.deleting_station_idx,
            pending: pending_view(self.pending),
        }
    }
}

impl Default for AppModel {
    /// The state at start-up without a playback controller.
    fn default() -> (model: Self)
        ensures
            model@ == initial(false),
            well_formed(model@),
    {
        AppModel::new(None)
    }
}

impl AppModel {
    /// The state at start-up. `player` is the playback controller, where one
    /// could be made.
    pub fn new(player: Option<Player>) -> (model: AppModel)
        ensures
            model@ == initial(player is Some),
            well_formed(model@),
    {
        let model = AppModel {
            player,
            play_state: PlayState::Null,
            channels: Vec::new(),
            current_channel_idx: None,
            error_message: None,
            adding_station: false,
            new_station_name: String::new(),
            new_station_url: String::new(),
            new_station_error: None,
            editing_station_idx: None,
            edit_station_name: String::new(),
            edit_station_url: String::new(),
            edit_station_error: None,
            deleting_station_idx: None,
            pending: None,
        };
        assert(model@ =~= initial(player is Some));
        proof {
            lemma_initial_is_well_formed(player is Some);
        }
        model
    }

    /// The station list.
    pub fn channels(&self) -> (list: &Vec<Channel>)
        ensures
            channel_views(list@) == self@.channels,
    {
        &self.channels
    }

    /// The station selected for playback, if any.
    pub fn current_channel_idx(&self) -> (idx: Option<usize>)
        ensures
            idx == self@.current_channel_idx,
    {
        self.current_channel_idx
    }

    /// The engine's state as last reported.
    pub fn play_state(&self) -> (state: PlayState)
        ensures
            state == self@.play_state,
    {
        self.play_state
    }

    /// Whether there is a playback controller.
    pub fn has_player(&self) -> (available: bool)
        ensures
            available == self@.player_available,
    {
        self.player.is_some()
    }

    /// The error shown to the user, if any.
    pub fn error_message(&self) -> (text: Option<&String>)
        ensures
            text_of_ref(text) == self@.error_message,
    {
        self.error_message.as_ref()
    }

    /// Whether the form for a new station is open.
    pub fn adding_station(&self) -> (open: bool)
        ensures
            open == self@.adding_station,
    {
        self.adding_station
    }

    /// The name typed into the form for a new station.
    pub fn new_station_name(&self) -> (text: &str)
        ensures
            text@ == self@.new_station_name,
    {
        self.new_station_name.as_str()
    }

    /// The address typed into the form for a new station.
    pub fn new_station_url(&self) -> (text: &str)
        ensures
            text@ == self@.new_station_url,
    {
        self.new_station_url.as_str()
    }

    /// Why the form for a new station was refused, if it was.
    pub fn new_station_error(&self) -> (reason: Option<ValidationError>)
        ensures
            reason == self@.new_station_error,
    {
        self.new_station_error
    }

    /// The station whose edit form is open, if any.
    pub fn editing_station_idx(&self) -> (idx: Option<usize>)
        ensures
            idx == self@.editing_station_idx,
    {
        self.editing_station_idx
    }

    /// The name typed into the edit form.
    pub fn edit_station_name(&self) -> (text: &str)
        ensures
            text@ == self@.edit_station_name,
    {
        self.edit_station_name.as_str()
    }

    /// The address typed into the edit form.
    pub fn edit_station_url(&self) -> (text: &str)
        ensures
            text@ == self@.edit_station_url,
    {
        self.edit_station_url.as_str()
    }

    /// Why the edit form was refused, if it was.
    pub fn edit_station_error(&self) -> (reason: Option<ValidationError>)
        ensures
            reason == self@.edit_station_error,
    {
        self.edit_station_error
    }

    /// The station whose deletion awaits confirmation, if any.
    pub fn deleting_station_idx(&self) -> (idx: Option<usize>)
        ensures
            idx == self@.deleting_station_idx,
    {
        self.deleting_station_idx
    }

    /// Whether a write of the list is awaited.
    pub fn is_saving(&self) -> (busy: bool)
        ensures
            busy == self@.pending is Some,
    {
        self.pending.is_some()
    }

    /// The screen that the popup shows.
    pub fn screen(&self) -> (shown: Screen)
        ensures
            shown == screen_of(self@),
    {
        if self.player.is_none() {
            Screen::AudioFailed
        } else if self.error_message.is_some() {
            Screen::Error
        } else if let Some(idx) = self.editing_station_idx {
            Screen::EditStation(idx)
        } else if let Some(idx) = self.deleting_station_idx {
            Screen::ConfirmDelete(idx)
        } else if self.adding_station {
            Screen::AddStation
        } else if self.channels.len() == 0 {
            Screen::Loading
        } else {
            Screen::ChannelList
        }
    }

    /// The icon of the button in the panel.
    pub fn panel_icon(&self) -> (icon: &'static str)
        ensures
            icon@ == (if self@.player_available {
                "audio-card-symbolic"@
            } else {
                "dialog-error-symbolic"@
            }),
    {
        if self.player.is_some() {
            "audio-card-symbolic"
        } else {
            "dialog-error-symbolic"
        }
    }

    /// The heading of the station list.
    pub fn header_text(&self) -> (text: String)
        ensures
            text@ == header_of(self@),
    {
        match self.current_channel_idx {
            Some(idx) => {
                if idx < self.channels.len() {
                    String::from_str("Now Playing: ").concat(self.channels[idx].name.as_str())
                } else {
                    String::from_str("Internet Radio")
                }
            },
            None => String::from_str("Internet Radio"),
        }
    }

    /// Whether the station list offers a button that stops playback.
    pub fn shows_stop_button(&self) -> (shown: bool)
        ensures
            shown == (self@.play_state == PlayState::Playing),
    {
        self.play_state == PlayState::Playing
    }

    /// Whether the station at `idx` is the one that plays.
    pub fn is_playing(&self, idx: usize) -> (playing: bool)
        ensures
            playing == is_playing(self@, idx),
    {
        match self.current_channel_idx {
            Some(current) => current == idx && self.play_state == PlayState::Playing,
            None => false,
        }
    }

    /// The icon of the button in the row of station `idx`.
    pub fn row_icon(&self, idx: usize) -> (icon: &'static str)
        ensures
            icon@ == (if is_playing(self@, idx) {
                "media-playback-stop-symbolic"@
            } else {
                "media-playback-start-symbolic"@
            }),
    {
        if self.is_playing(idx) {
            "media-playback-stop-symbolic"
        } else {
            "media-playback-start-symbolic"
        }
    }

    /// The event that the button in the row of station `idx` sends.
    pub fn row_message(&self, idx: usize) -> (message: Message)
        ensures
            message@ == row_message(self@, idx),
    {
        if self.is_playing(idx) {
            Message::StopPlayback
        } else {
            Message::PlayChannel(idx)
        }
    }

    /// The question asked before the station at `idx` is deleted.
    pub fn delete_question(&self, idx: usize) -> (text: String)
        ensures
            text@ == delete_question(self@, idx),
    {
        let asked = String::from_str("Are you sure you want to delete '");
        let named = if idx < self.channels.len() {
            asked.concat(self.channels[idx].name.as_str())
        } else {
            asked.concat("this station")
        };
        named.concat("'")
    }

    /// A stop command where there is a controller to take it.
    fn stop_commands(&self) -> (commands: Vec<Command>)
        ensures
            command_views(commands@) == stop_commands(self@),
    {
        let mut commands: Vec<Command> = Vec::new();
        if self.player.is_some() {
            commands.push(Command::Stop);
        }
        assert(command_views(commands@) =~= stop_commands(self@));
        commands
    }

    /// Stops playback if the engine reports that it plays.
    fn toggle_playback(&mut self) -> (commands: Vec<Command>)
        ensures
            final(self)@ == toggle_playback(old(self)@).0,
            command_views(commands@) == toggle_playback(old(self)@).1,
    {
        let mut commands: Vec<Command> = Vec::new();
        if self.player.is_some() && self.play_state == PlayState::Playing {
            commands.push(Command::Stop);
            self.current_channel_idx = None;
        }
        assert(self@ =~= toggle_playback(old(self)@).0);
        assert(command_views(commands@) =~= toggle_playback(old(self)@).1);
        commands
    }

    /// The commands that start the station at `idx`.
    fn play_channel(&self, idx: usize) -> (commands: Vec<Command>)
        ensures
            command_views(commands@) == play_channel(self@, idx).1,
    {
        let mut commands: Vec<Command> = Vec::new();
        if idx < self.channels.len() && self.player.is_some() {
            commands.push(Command::Stop);
            commands.push(Command::Play { idx, uri: self.channels[idx].uri.clone() });
        }
        assert(command_views(commands@) =~= play_channel(self@, idx).1);
        commands
    }

    /// Takes the answer to a `Play` command.
    fn play_finished(&mut self, idx: usize, started: bool)
        ensures
            final(self)@ == play_finished(old(self)@, idx, started),
    {
        if idx < self.channels.len() {
            if started {
                self.current_channel_idx = Some(idx);
                self.error_message = None;
            } else {
                let text = String::from_str("Failed to play ").concat(
                    self.channels[idx].name.as_str(),
                );
                self.error_message = Some(text);
            }
        }
        assert(self@ =~= play_finished(old(self)@, idx, started));
    }

    /// Stops playback and clears the current station.
    fn stop_playback(&mut self) -> (commands: Vec<Command>)
        ensures
            final(self)@ == stop_playback(old(self)@).0,
            command_views(commands@) == stop_playback(old(self)@).1,
    {
        let commands = self.stop_commands();
        self.current_channel_idx = None;
        assert(self@ =~= stop_playback(old(self)@).0);
        commands
    }

    /// Takes the engine's report of its state.
    fn player_state_changed(&mut self, state: PlayState)
        ensures
            final(self)@ == player_state_changed(old(self)@, state),
    {
        self.play_state = state;
        if state == PlayState::Null {
            self.current_channel_idx = None;
        }
        assert(self@ =~= player_state_changed(old(self)@, state));
    }

    /// Replaces the list.
    fn channels_loaded(&mut self, channels: Vec<Channel>)
        ensures
            final(self)@ == channels_loaded(old(self)@, channel_views(channels@)),
    {
        match self.current_channel_idx {
            Some(current) => {
                if current >= channels.len() {
                    self.current_channel_idx = None;
                }
            },
            None => {},
        }
        self.channels = channels;
        self.error_message = None;
        assert(self@ =~= channels_loaded(old(self)@, channel_views(channels@)));
    }

    /// Closes and empties the form for a new station.
    fn close_add_form(&mut self)
        ensures
            final(self)@ == add_form_closed(old(self)@),
    {
        self.adding_station = false;
        self.new_station_name = String::new();
        self.new_station_url = String::new();
        self.new_station_error = None;
        assert(self@ =~= add_form_closed(old(self)@));
    }

    /// Closes and empties the edit form.
    fn close_edit_form(&mut self)
        ensures
            final(self)@ == edit_form_closed(old(self)@),
    {
        self.editing_station_idx = None;
        self.edit_station_name = String::new();
        self.edit_station_url = String::new();
        self.edit_station_error = None;
        assert(self@ =~= edit_form_closed(old(self)@));
    }

    /// Opens the form for a new station, or closes and empties it.
    fn toggle_add_station(&mut self)
        ensures
            final(self)@ == toggle_add_station(old(self)@),
    {
        if self.adding_station {
            self.close_add_form();
        } else {
            self.adding_station = true;
            assert(self@ =~= toggle_add_station(old(self)@));
        }
    }

    /// The command to write the list as it stands.
    fn save_command(&self) -> (commands: Vec<Command>)
        ensures
            command_views(commands@) == seq![CommandView::Save(self@.channels)],
    {
        let mut commands: Vec<Command> = Vec::new();
        commands.push(Command::Save(ChannelList { channels: clone_channels(&self.channels) }));
        assert(command_views(commands@) =~= seq![CommandView::Save(self@.channels)]);
        commands
    }

    /// Submits the form for a new station.
    fn save_new_station(&mut self) -> (commands: Vec<Command>)
        ensures
            final(self)@ == save_new_station(old(self)@).0,
            command_views(commands@) == save_new_station(old(self)@).1,
    {
        match validate_station(self.new_station_name.as_str(), self.new_station_url.as_str()) {
            Err(reason) => {
                self.new_station_error = Some(reason);
                assert(self@ =~= save_new_station(old(self)@).0);
                let commands: Vec<Command> = Vec::new();
                assert(command_views(commands@) =~= save_new_station(old(self)@).1);
                commands
            },
            Ok(fields) => {
                self.channels.push(
                    Channel { id: fields.id, name: fields.name, uri: fields.uri, favourite: false },
                );
                self.pending = Some(Pending::Added);
                assert(self@ =~= save_new_station(old(self)@).0);
                self.save_command()
            },
        }
    }

    /// Opens the edit form for the station at `idx`.
    fn start_edit_station(&mut self, idx: usize)
        ensures
            final(self)@ == start_edit_station(old(self)@, idx),
    {
        if idx < self.channels.len() {
            self.editing_station_idx = Some(idx);
            self.edit_station_name = self.channels[idx].name.clone();
            self.edit_station_url = self.channels[idx].uri.clone();
            self.edit_station_error = None;
        }
        assert(self@ =~= start_edit_station(old(self)@, idx));
    }

    /// Submits the edit form. The station keeps the identifier it has where
    /// the one derived from its new name is the same.
    fn save_edit_station(&mut self) -> (commands: Vec<Command>)
        ensures
            final(self)@ == save_edit_station(old(self)@).0,
            command_views(commands@) == save_edit_station(old(self)@).1,
    {
        let idx = match self.editing_station_idx {
            Some(idx) => idx,
            None => {
                let commands: Vec<Command> = Vec::new();
                assert(command_views(commands@) =~= save_edit_station(old(self)@).1);
                return commands;
            },
        };
        match validate_station(self.edit_station_name.as_str(), self.edit_station_url.as_str()) {
            Err(reason) => {
                self.edit_station_error = Some(reason);
                assert(self@ =~= save_edit_station(old(self)@).0);
                let commands: Vec<Command> = Vec::new();
                assert(command_views(commands@) =~= save_edit_station(old(self)@).1);
                commands
            },
            Ok(fields) => {
                if idx < self.channels.len() {
                    let present = self.channels.remove(idx);
                    let id = if fields.id == present.id {
                        present.id
                    } else {
                        fields.id
                    };
                    let edited = Channel {
                        id,
                        name: fields.name,
                        uri: fields.uri,
                        favourite: present.favourite,
                    };
                    self.channels.insert(idx, edited);
                    self.pending = Some(Pending::Edited { idx });
                    assert(self@ =~= save_edit_station(old(self)@).0);
                    self.save_command()
                } else {
                    let commands: Vec<Command> = Vec::new();
                    assert(command_views(commands@) =~= save_edit_station(old(self)@).1);
                    commands
                }
            },
        }
    }

    /// Deletes the station whose deletion was asked for.
    fn confirm_delete_station(&mut self) -> (commands: Vec<Command>)
        ensures
            final(self)@ == confirm_delete_station(old(self)@).0,
            command_views(commands@) == confirm_delete_station(old(self)@).1,
    {
        let idx = match self.deleting_station_idx {
            Some(idx) => idx,
            None => {
                let commands: Vec<Command> = Vec::new();
                assert(command_views(commands@) =~= confirm_delete_station(old(self)@).1);
                return commands;
            },
        };
        self.deleting_station_idx = None;
        if idx < self.channels.len() {
            let removed = self.channels.remove(idx);
            self.pending = Some(Pending::Deleted { idx, removed });
            assert(self@ =~= confirm_delete_station(old(self)@).0);
            self.save_command()
        } else {
            assert(self@ =~= confirm_delete_station(old(self)@).0);
            let commands: Vec<Command> = Vec::new();
            assert(command_views(commands@) =~= confirm_delete_station(old(self)@).1);
            commands
        }
    }

    /// Shows that the list could not be written.
    fn show_save_failure(&mut self, reason: &ChannelError)
        ensures
            final(self)@ == (ModelView {
                error_message: Some(save_failure_text(reason@)),
                ..old(self)@
            }),
    {
        let text = String::from_str("Failed to save: ").concat(reason.message().as_str());
        self.error_message = Some(text);
        assert(self@ =~= (ModelView {
            error_message: Some(save_failure_text(reason@)),
            ..old(self)@
        }));
    }

    /// Takes the outcome of the awaited write.
    fn save_finished(&mut self, outcome: Result<(), ChannelError>) -> (commands: Vec<Command>)
        requires
            old(self)@.pending is Some,
        ensures
            final(self)@ == save_finished(
                old(self)@,
                old(self)@.pending->0,
                save_outcome_view(outcome),
            ).0,
            command_views(commands@) == save_finished(
                old(self)@,
                old(self)@.pending->0,
                save_outcome_view(outcome),
            ).1,
    {
        let ghost before = self@;
        let ghost expected = save_finished(before, before.pending->0, save_outcome_view(outcome));
        let pending = self.pending.take();
        let mut commands: Vec<Command> = Vec::new();
        match pending {
            None => {},
            Some(Pending::Added) => match outcome {
                Ok(_) => {
                    self.close_add_form();
                },
                Err(reason) => {
                    self.show_save_failure(&reason);
                    let _ = self.channels.pop();
                },
            },
            Some(Pending::Edited { idx }) => match outcome {
                Ok(_) => {
                    self.close_edit_form();
                    if self.current_channel_idx == Some(idx) {
                        commands = self.stop_commands();
                        self.current_channel_idx = None;
                    }
                },
                Err(reason) => {
                    self.show_save_failure(&reason);
                },
            },
            Some(Pending::Deleted { idx, removed }) => match outcome {
                Ok(_) => {
                    match self.current_channel_idx {
                        Some(current) => {
                            if current == idx {
                                commands = self.stop_commands();
                                self.current_channel_idx = None;
                            } else if current > idx {
                                self.current_channel_idx = Some(current - 1);
                            }
                        },
                        None => {},
                    }
                },
                Err(reason) => {
                    self.show_save_failure(&reason);
                    if idx <= self.channels.len() {
                        self.channels.insert(idx, removed);
                    }
                },
            },
        }
        assert(self@ =~= expected.0);
        assert(command_views(commands@) =~= expected.1);
        commands
    }

    /// Takes one event: the state becomes the next state, and the commands
    /// to carry out are returned in the order in which they are due.
    pub fn update(&mut self, message: Message) -> (commands: Vec<Command>)
        ensures
            final(self)@ == step(old(self)@, message@).0,
            command_views(commands@) == step(old(self)@, message@).1,
            well_formed(old(self)@) ==> well_formed(final(self)@),
    {
        proof {
            if well_formed(self@) {
                lemma_step_keeps_well_formed(self@, message@);
            }
        }
        if self.pending.is_some() {
            match message {
                Message::SaveFinished(outcome) => self.save_finished(outcome),
                _ => {
                    let commands: Vec<Command> = Vec::new();
                    assert(command_views(commands@) =~= Seq::<CommandView>::empty());
                    commands
                },
            }
        } else {
            let mut commands: Vec<Command> = Vec::new();
            assert(command_views(commands@) =~= Seq::<CommandView>::empty());
            match message {
                Message::TogglePlayback => {
                    commands = self.toggle_playback();
                },
                Message::PlayerStateChanged(state) => {
                    self.player_state_changed(state);
                },
                Message::MetadataUpdated => {},
                Message::PlayChannel(idx) => {
                    commands = self.play_channel(idx);
                },
                Message::PlayFinished { idx, started } => {
                    self.play_finished(idx, started);
                },
                Message::StopPlayback => {
                    commands = self.stop_playback();
                },
                Message::ChannelsLoaded(channels) => {
                    self.channels_loaded(channels);
                },
                Message::ChannelError(text) => {
                    self.error_message = Some(text);
                    assert(self@ =~= step(old(self)@, message@).0);
                },
                Message::ToggleAddStation => {
                    self.toggle_add_station();
                },
                Message::NewStationNameChanged(text) => {
                    self.new_station_name = text;
                    self.new_station_error = None;
                    assert(self@ =~= step(old(self)@, message@).0);
                },
                Message::NewStationUrlChanged(text) => {
                    self.new_station_url = text;
                    self.new_station_error = None;
                    assert(self@ =~= step(old(self)@, message@).0);
                },
                Message::SaveNewStation => {
                    commands = self.save_new_station();
                },
                Message::CancelAddStation => {
                    self.close_add_form();
                },
                Message::StartEditStation(idx) => {
                    self.start_edit_station(idx);
                },
                Message::EditStationNameChanged(text) => {
                    self.edit_station_name = text;
                    self.edit_station_error = None;
                    assert(self@ =~= step(old(self)@, message@).0);
                },
                Message::EditStationUrlChanged(text) => {
                    self.edit_station_url = text;
                    self.edit_station_error = None;
                    assert(self@ =~= step(old(self)@, message@).0);
                },
                Message::SaveEditStation => {
                    commands = self.save_edit_station();
                },
                Message::CancelEditStation => {
                    self.close_edit_form();
                },
                Message::StartDeleteStation(idx) => {
                    self.deleting_station_idx = Some(idx);
                    assert(self@ =~= step(old(self)@, message@).0);
                },
                Message::ConfirmDeleteStation => {
                    commands = self.confirm_delete_station();
                },
                Message::CancelDeleteStation => {
                    self.deleting_station_idx = None;
                    assert(self@ =~= step(old(self)@, message@).0);
                },
                Message::SaveFinished(_) => {},
            }
            commands
        }
    }
}

} // verus!
