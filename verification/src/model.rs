//! The coordinator as a mathematical function: from the applet's state and
//! one event to the next state and the commands to carry out.
//!
//! Commands are carried out by the caller. Two of them are answered with an
//! event: starting a station with `PlayFinished`, writing the list with
//! `SaveFinished`. A change to the list is made before the list is written;
//! while the write is awaited the state is busy and takes no event but the
//! write's outcome.

use crate::channels::{ChannelErrorView, ChannelView};
use crate::player::{BusNotice, PlayState};
use crate::text::{derived_id, trimmed};
use crate::validation::{validated, ValidationError};
use vstd::prelude::*;

verus! {

/// A change to the list whose write has not been answered yet.
#[verifier::ext_equal]
pub enum PendingView {
    /// A station was appended.
    Added,
    /// The station at `idx` was edited in place.
    Edited { idx: usize },
    /// The station `removed` was taken out at `idx`.
    Deleted { idx: usize, removed: ChannelView },
}

/// The applet's state as plain values.
#[verifier::ext_equal]
pub struct ModelView {
    /// Whether a playback controller could be made at start-up.
    pub player_available: bool,
    /// The engine's state as last reported by the engine.
    pub play_state: PlayState,
    /// The station list.
    pub channels: Seq<ChannelView>,
    /// The station selected for playback, if any.
    pub current_channel_idx: Option<usize>,
    /// The error shown to the user, if any.
    pub error_message: Option<Seq<char>>,
    /// Whether the form for a new station is open.
    pub adding_station: bool,
    pub new_station_name: Seq<char>,
    pub new_station_url: Seq<char>,
    pub new_station_error: Option<ValidationError>,
    /// The station whose edit form is open, if any.
    pub editing_station_idx: Option<usize>,
    pub edit_station_name: Seq<char>,
    pub edit_station_url: Seq<char>,
    pub edit_station_error: Option<ValidationError>,
    /// The station whose deletion awaits confirmation, if any.
    pub deleting_station_idx: Option<usize>,
    /// The change whose write is awaited, if any.
    pub pending: Option<PendingView>,
}

/// An event as plain values.
pub enum MessageView {
    TogglePlayback,
    PlayerStateChanged(PlayState),
    MetadataUpdated,
    PlayChannel(usize),
    PlayFinished { idx: usize, started: bool },
    StopPlayback,
    ChannelsLoaded(Seq<ChannelView>),
    ChannelError(Seq<char>),
    ToggleAddStation,
    NewStationNameChanged(Seq<char>),
    NewStationUrlChanged(Seq<char>),
    SaveNewStation,
    CancelAddStation,
    StartEditStation(usize),
    EditStationNameChanged(Seq<char>),
    EditStationUrlChanged(Seq<char>),
    SaveEditStation,
    CancelEditStation,
    StartDeleteStation(usize),
    ConfirmDeleteStation,
    CancelDeleteStation,
    SaveFinished(Result<(), ChannelErrorView>),
}

/// A command as plain values.
#[verifier::ext_equal]
pub enum CommandView {
    /// Stop the engine; whether it obeys is not reported.
    Stop,
    /// Start the given address; answer with `PlayFinished` for `idx`.
    Play { idx: usize, uri: Seq<char> },
    /// Write the given list; answer with `SaveFinished`.
    Save(Seq<ChannelView>),
}

/// Whether an optional index lies within a list of `len` items.
pub open spec fn index_in(idx: Option<usize>, len: int) -> bool {
    match idx {
        Some(i) => i < len,
        None => true,
    }
}

/// The state at start-up.
pub open spec fn initial(player_available: bool) -> ModelView {
    ModelView {
        player_available,
        play_state: PlayState::Null,
        channels: Seq::empty(),
        current_channel_idx: None,
        error_message: None,
        adding_station: false,
        new_station_name: Seq::empty(),
        new_station_url: Seq::empty(),
        new_station_error: None,
        editing_station_idx: None,
        edit_station_name: Seq::empty(),
        edit_station_url: Seq::empty(),
        edit_station_error: None,
        deleting_station_idx: None,
        pending: None,
    }
}

/// What holds of every state: the current index, if set, is an index into
/// the list. While a write is awaited, it is an index into the list as it
/// would stand with the awaited change undone.
pub open spec fn well_formed(s: ModelView) -> bool {
    match s.pending {
        None => index_in(s.current_channel_idx, s.channels.len() as int),
        Some(PendingView::Added) => s.channels.len() >= 1 && index_in(
            s.current_channel_idx,
            s.channels.len() as int - 1,
        ),
        Some(PendingView::Edited { idx }) => idx < s.channels.len() && index_in(
            s.current_channel_idx,
            s.channels.len() as int,
        ),
        Some(PendingView::Deleted { idx, removed }) => idx <= s.channels.len() && index_in(
            s.current_channel_idx,
            s.channels.len() as int + 1,
        ),
    }
}

/// A stop command where there is a controller to take it, else nothing.
pub open spec fn stop_commands(s: ModelView) -> Seq<CommandView> {
    if s.player_available {
        seq![CommandView::Stop]
    } else {
        Seq::empty()
    }
}

/// The text shown when a station could not be started.
pub open spec fn play_failure_text(name: Seq<char>) -> Seq<char> {
    "Failed to play "@ + name
}

/// The text shown when the list could not be written.
pub open spec fn save_failure_text(reason: ChannelErrorView) -> Seq<char> {
    "Failed to save: "@ + reason.message()
}

/// The station that a valid form for a new station adds.
pub open spec fn new_channel(id: Seq<char>, name: Seq<char>, uri: Seq<char>) -> ChannelView {
    ChannelView { id, name, uri, favourite: false }
}

/// `s` with the form for a new station closed and emptied.
pub open spec fn add_form_closed(s: ModelView) -> ModelView {
    ModelView {
        adding_station: false,
        new_station_name: Seq::empty(),
        new_station_url: Seq::empty(),
        new_station_error: None,
        ..s
    }
}

/// `s` with the edit form closed and emptied.
pub open spec fn edit_form_closed(s: ModelView) -> ModelView {
    ModelView {
        editing_station_idx: None,
        edit_station_name: Seq::empty(),
        edit_station_url: Seq::empty(),
        edit_station_error: None,
        ..s
    }
}

/// Stops playback if the engine reports that it plays; otherwise nothing.
pub open spec fn toggle_playback(s: ModelView) -> (ModelView, Seq<CommandView>) {
    if s.player_available && s.play_state == PlayState::Playing {
        (ModelView { current_channel_idx: None, ..s }, seq![CommandView::Stop])
    } else {
        (s, Seq::empty())
    }
}

/// Asks for the station at `idx`: stop what plays, then start its address.
/// Nothing happens for an index outside the list or without a controller.
pub open spec fn play_channel(s: ModelView, idx: usize) -> (ModelView, Seq<CommandView>) {
    if idx < s.channels.len() && s.player_available {
        (s, seq![CommandView::Stop, CommandView::Play { idx, uri: s.channels[idx as int].uri }])
    } else {
        (s, Seq::empty())
    }
}

/// Takes the answer to a `Play` command: a started station becomes the
/// current one and the error is cleared; a failed start sets the error and
/// leaves the current index as it was.
pub open spec fn play_finished(s: ModelView, idx: usize, started: bool) -> ModelView {
    if idx >= s.channels.len() {
        s
    } else if started {
        ModelView { current_channel_idx: Some(idx), error_message: None, ..s }
    } else {
        ModelView {
            error_message: Some(play_failure_text(s.channels[idx as int].name)),
            ..s
        }
    }
}

/// Stops playback and clears the current index, whether or not the engine
/// obeys.
pub open spec fn stop_playback(s: ModelView) -> (ModelView, Seq<CommandView>) {
    (ModelView { current_channel_idx: None, ..s }, stop_commands(s))
}

/// Takes the engine's report of its state; a stopped engine has no current
/// station.
pub open spec fn player_state_changed(s: ModelView, state: PlayState) -> ModelView {
    ModelView {
        play_state: state,
        current_channel_idx: if state == PlayState::Null {
            None
        } else {
            s.current_channel_idx
        },
        ..s
    }
}

/// Replaces the list and clears the error. The current index is kept only if
/// it is an index into the new list.
pub open spec fn channels_loaded(s: ModelView, channels: Seq<ChannelView>) -> ModelView {
    ModelView {
        channels,
        error_message: None,
        current_channel_idx: if index_in(s.current_channel_idx, channels.len() as int) {
            s.current_channel_idx
        } else {
            None
        },
        ..s
    }
}

/// Opens the form for a new station, or closes and empties it.
pub open spec fn toggle_add_station(s: ModelView) -> ModelView {
    if s.adding_station {
        add_form_closed(s)
    } else {
        ModelView { adding_station: true, ..s }
    }
}

/// Validates the form for a new station. A valid form appends its station
/// and asks for the list to be written; an invalid one records the reason.
pub open spec fn save_new_station(s: ModelView) -> (ModelView, Seq<CommandView>) {
    match validated(s.new_station_name, s.new_station_url) {
        Err(reason) => (ModelView { new_station_error: Some(reason), ..s }, Seq::empty()),
        Ok(fields) => {
            let channels = s.channels.push(new_channel(fields.id, fields.name, fields.uri));
            (
                ModelView { channels, pending: Some(PendingView::Added), ..s },
                seq![CommandView::Save(channels)],
            )
        },
    }
}

/// Opens the edit form for the station at `idx`, filled with its name and
/// address. Nothing happens for an index outside the list.
pub open spec fn start_edit_station(s: ModelView, idx: usize) -> ModelView {
    if idx < s.channels.len() {
        ModelView {
            editing_station_idx: Some(idx),
            edit_station_name: s.channels[idx as int].name,
            edit_station_url: s.channels[idx as int].uri,
            edit_station_error: None,
            ..s
        }
    } else {
        s
    }
}

/// Validates the edit form. A valid form changes the station in place, name,
/// address and identifier, and asks for the list to be written; an invalid
/// one records the reason. The identifier is the one derived from the name,
/// so it changes only where that differs from the one the station has.
pub open spec fn save_edit_station(s: ModelView) -> (ModelView, Seq<CommandView>) {
    match s.editing_station_idx {
        None => (s, Seq::empty()),
        Some(idx) => match validated(s.edit_station_name, s.edit_station_url) {
            Err(reason) => (ModelView { edit_station_error: Some(reason), ..s }, Seq::empty()),
            Ok(fields) => if idx < s.channels.len() {
                let edited = ChannelView {
                    id: fields.id,
                    name: fields.name,
                    uri: fields.uri,
                    favourite: s.channels[idx as int].favourite,
                };
                let channels = s.channels.update(idx as int, edited);
                (
                    ModelView { channels, pending: Some(PendingView::Edited { idx }), ..s },
                    seq![CommandView::Save(channels)],
                )
            } else {
                (s, Seq::empty())
            },
        },
    }
}

/// Deletes the station whose deletion was asked for, and asks for the list
/// to be written. The request for confirmation is over either way.
pub open spec fn confirm_delete_station(s: ModelView) -> (ModelView, Seq<CommandView>) {
    match s.deleting_station_idx {
        None => (s, Seq::empty()),
        Some(idx) => if idx < s.channels.len() {
            let channels = s.channels.remove(idx as int);
            (
                ModelView {
                    channels,
                    deleting_station_idx: None,
                    pending: Some(PendingView::Deleted { idx, removed: s.channels[idx as int] }),
                    ..s
                },
                seq![CommandView::Save(channels)],
            )
        } else {
            (ModelView { deleting_station_idx: None, ..s }, Seq::empty())
        },
    }
}

/// The current index after the station at `idx` has left the list: cleared
/// if it was that station, one less if it lay behind it, else unchanged.
pub open spec fn index_after_delete(current: Option<usize>, idx: usize) -> Option<usize> {
    match current {
        Some(c) => if c == idx {
            None
        } else if c > idx {
            Some((c - 1) as usize)
        } else {
            Some(c)
        },
        None => None,
    }
}

/// Takes the outcome of the awaited write.
///
/// After an append: success closes and empties the form; failure takes the
/// appended station out again and shows the error.
/// After an edit: success closes the edit form and, if the edited station is
/// the current one, stops playback; failure shows the error and leaves the
/// edited station as edited.
/// After a deletion: success adjusts the current index and, if the deleted
/// station was the current one, stops playback; failure puts the station back
/// where it was and shows the error.
pub open spec fn save_finished(s: ModelView, pending: PendingView, outcome: Result<
    (),
    ChannelErrorView,
>) -> (ModelView, Seq<CommandView>) {
    let settled = ModelView { pending: None, ..s };
    match pending {
        PendingView::Added => match outcome {
            Ok(_) => (add_form_closed(settled), Seq::empty()),
            Err(reason) => (
                ModelView {
                    error_message: Some(save_failure_text(reason)),
                    channels: if s.channels.len() > 0 {
                        s.channels.drop_last()
                    } else {
                        s.channels
                    },
                    ..settled
                },
                Seq::empty(),
            ),
        },
        PendingView::Edited { idx } => match outcome {
            Ok(_) => if s.current_channel_idx == Some(idx) {
                (
                    ModelView { current_channel_idx: None, ..edit_form_closed(settled) },
                    stop_commands(s),
                )
            } else {
                (edit_form_closed(settled), Seq::empty())
            },
            Err(reason) => (
                ModelView { error_message: Some(save_failure_text(reason)), ..settled },
                Seq::empty(),
            ),
        },
        PendingView::Deleted { idx, removed } => match outcome {
            Ok(_) => (
                ModelView {
                    current_channel_idx: index_after_delete(s.current_channel_idx, idx),
                    ..settled
                },
                if s.current_channel_idx == Some(idx) {
                    stop_commands(s)
                } else {
                    Seq::empty()
                },
            ),
            Err(reason) => (
                ModelView {
                    error_message: Some(save_failure_text(reason)),
                    channels: if idx <= s.channels.len() {
                        s.channels.insert(idx as int, removed)
                    } else {
                        s.channels
                    },
                    ..settled
                },
                Seq::empty(),
            ),
        },
    }
}

/// The next state and the commands for one event.
pub open spec fn step(s: ModelView, message: MessageView) -> (ModelView, Seq<CommandView>) {
    match s.pending {
        Some(pending) => match message {
            MessageView::SaveFinished(outcome) => save_finished(s, pending, outcome),
            _ => (s, Seq::empty()),
        },
        None => match message {
            MessageView::TogglePlayback => toggle_playback(s),
            MessageView::PlayerStateChanged(state) => (
                player_state_changed(s, state),
                Seq::empty(),
            ),
            MessageView::MetadataUpdated => (s, Seq::empty()),
            MessageView::PlayChannel(idx) => play_channel(s, idx),
            MessageView::PlayFinished { idx, started } => (
                play_finished(s, idx, started),
                Seq::empty(),
            ),
            MessageView::StopPlayback => stop_playback(s),
            MessageView::ChannelsLoaded(channels) => (channels_loaded(s, channels), Seq::empty()),
            MessageView::ChannelError(text) => (
                ModelView { error_message: Some(text), ..s },
                Seq::empty(),
            ),
            MessageView::ToggleAddStation => (toggle_add_station(s), Seq::empty()),
            MessageView::NewStationNameChanged(text) => (
                ModelView { new_station_name: text, new_station_error: None, ..s },
                Seq::empty(),
            ),
            MessageView::NewStationUrlChanged(text) => (
                ModelView { new_station_url: text, new_station_error: None, ..s },
                Seq::empty(),
            ),
            MessageView::SaveNewStation => save_new_station(s),
            MessageView::CancelAddStation => (add_form_closed(s), Seq::empty()),
            MessageView::StartEditStation(idx) => (start_edit_station(s, idx), Seq::empty()),
            MessageView::EditStationNameChanged(text) => (
                ModelView { edit_station_name: text, edit_station_error: None, ..s },
                Seq::empty(),
            ),
            MessageView::EditStationUrlChanged(text) => (
                ModelView { edit_station_url: text, edit_station_error: None, ..s },
                Seq::empty(),
            ),
            MessageView::SaveEditStation => save_edit_station(s),
            MessageView::CancelEditStation => (edit_form_closed(s), Seq::empty()),
            MessageView::StartDeleteStation(idx) => (
                ModelView { deleting_station_idx: Some(idx), ..s },
                Seq::empty(),
            ),
            MessageView::ConfirmDeleteStation => confirm_delete_station(s),
            MessageView::CancelDeleteStation => (
                ModelView { deleting_station_idx: None, ..s },
                Seq::empty(),
            ),
            MessageView::SaveFinished(outcome) => (s, Seq::empty()),
        },
    }
}

/// The event that a notice on the engine's bus becomes, if any: a change of
/// state of the controller's own pipeline is reported as it is, an error as
/// a change to the stopped state, metadata as metadata; the rest is dropped.
pub open spec fn bus_message(notice: BusNotice) -> Option<MessageView> {
    match notice {
        BusNotice::StateChanged { from_pipeline, current } => if from_pipeline {
            Some(MessageView::PlayerStateChanged(current))
        } else {
            None
        },
        BusNotice::Tag => Some(MessageView::MetadataUpdated),
        BusNotice::Error => Some(MessageView::PlayerStateChanged(PlayState::Null)),
        BusNotice::Other => None,
    }
}

/// The event that the outcome of loading becomes.
pub open spec fn loaded_message(
    outcome: Result<Seq<ChannelView>, ChannelErrorView>,
) -> MessageView {
    match outcome {
        Ok(channels) => MessageView::ChannelsLoaded(channels),
        Err(reason) => MessageView::ChannelError(reason.message()),
    }
}

/// What the popup shows.
#[derive(Debug, Clone, Copy, PartialEq, Eq, Structural)]
pub enum Screen {
    /// No playback controller could be made.
    AudioFailed,
    /// An error is shown, with the offer to use the default stations.
    Error,
    /// The edit form for the station at this index.
    EditStation(usize),
    /// The request to confirm the deletion of the station at this index.
    ConfirmDelete(usize),
    /// The form for a new station.
    AddStation,
    /// No station is there yet.
    Loading,
    /// The station list.
    ChannelList,
}

/// The screen for a state. What comes first wins: a missing controller, an
/// error, an open edit form, a deletion to confirm, the form for a new
/// station, an empty list, the list.
pub open spec fn screen_of(s: ModelView) -> Screen {
    if !s.player_available {
        Screen::AudioFailed
    } else if s.error_message is Some {
        Screen::Error
    } else if s.editing_station_idx is Some {
        Screen::EditStation(s.editing_station_idx->0)
    } else if s.deleting_station_idx is Some {
        Screen::ConfirmDelete(s.deleting_station_idx->0)
    } else if s.adding_station {
        Screen::AddStation
    } else if s.channels.len() == 0 {
        Screen::Loading
    } else {
        Screen::ChannelList
    }
}

/// The heading of the station list: the current station's name, where there
/// is a current station in the list.
pub open spec fn header_of(s: ModelView) -> Seq<char> {
    match s.current_channel_idx {
        Some(idx) if idx < s.channels.len() => "Now Playing: "@ + s.channels[idx as int].name,
        _ => "Internet Radio"@,
    }
}

/// Whether the station at `idx` is the one that plays: it is the current
/// station and the engine reports that it plays.
pub open spec fn is_playing(s: ModelView, idx: usize) -> bool {
    s.current_channel_idx == Some(idx) && s.play_state == PlayState::Playing
}

/// The event that the button in the row of station `idx` sends: stop for the
/// station that plays, play for every other.
pub open spec fn row_message(s: ModelView, idx: usize) -> MessageView {
    if is_playing(s, idx) {
        MessageView::StopPlayback
    } else {
        MessageView::PlayChannel(idx)
    }
}

/// The question asked before the station at `idx` is deleted.
pub open spec fn delete_question(s: ModelView, idx: usize) -> Seq<char> {
    "Are you sure you want to delete '"@ + (if idx < s.channels.len() {
        s.channels[idx as int].name
    } else {
        "this station"@
    }) + "'"@
}

/// The state at start-up is well formed.
pub proof fn lemma_initial_is_well_formed(player_available: bool)
    ensures
        well_formed(initial(player_available)),
{
}

/// Every event keeps a well-formed state well formed: between writes the
/// current index, if set, is always an index into the list.
pub proof fn lemma_step_keeps_well_formed(s: ModelView, message: MessageView)
    requires
        well_formed(s),
    ensures
        well_formed(step(s, message).0),
{
    match s.pending {
        Some(pending) => match message {
            MessageView::SaveFinished(outcome) => {
                lemma_save_finished_settles(s, pending, outcome);
            },
            _ => {},
        },
        None => match message {
            MessageView::SaveNewStation => {
                assert(well_formed(save_new_station(s).0));
            },
            MessageView::SaveEditStation => {
                assert(well_formed(save_edit_station(s).0));
            },
            MessageView::ConfirmDeleteStation => {
                assert(well_formed(confirm_delete_station(s).0));
            },
            MessageView::ChannelsLoaded(channels) => {
                assert(well_formed(channels_loaded(s, channels)));
            },
            MessageView::PlayFinished { idx, started } => {
                assert(well_formed(play_finished(s, idx, started)));
            },
            _ => {},
        },
    }
}

/// The outcome of the awaited write leaves a well-formed state in which no
/// write is awaited.
proof fn lemma_save_finished_settles(
    s: ModelView,
    pending: PendingView,
    outcome: Result<(), ChannelErrorView>,
)
    requires
        well_formed(s),
        s.pending == Some(pending),
    ensures
        well_formed(save_finished(s, pending, outcome).0),
        save_finished(s, pending, outcome).0.pending is None,
{
}

/// The commands for an event have one of four shapes: none; a stop; a stop
/// followed by the start of a station of the list, at its own address; or
/// the write of the list as it stands after the event. Playback is only ever
/// commanded where there is a controller.
pub proof fn lemma_command_shapes(s: ModelView, message: MessageView)
    ensures
        ({
            let next = step(s, message).0;
            let commands = step(s, message).1;
            ||| commands.len() == 0
            ||| commands.len() == 1 && commands[0] == CommandView::Stop && s.player_available
            ||| {
                &&& commands.len() == 2
                &&& commands[0] == CommandView::Stop
                &&& s.player_available
                &&& commands[1] matches CommandView::Play { idx, uri }
                &&& idx < s.channels.len()
                &&& uri == s.channels[idx as int].uri
            }
            ||| commands.len() == 1 && commands[0] == CommandView::Save(next.channels)
        }),
{
    match s.pending {
        Some(pending) => match message {
            MessageView::SaveFinished(outcome) => {
                assert(save_finished(s, pending, outcome).1.len() <= 1);
            },
            _ => {},
        },
        None => {},
    }
}

/// A write is awaited exactly after an event that asked for one, and its
/// outcome ends the wait.
pub proof fn lemma_write_is_awaited(s: ModelView, message: MessageView)
    ensures
        s.pending is None ==> (step(s, message).0.pending is Some <==> step(s, message).1.len() == 1
            && step(s, message).1[0] == CommandView::Save(step(s, message).0.channels)),
        s.pending is Some && message is SaveFinished ==> step(s, message).0.pending is None,
{
}

/// Deleting the station at `i`, once the write has succeeded: the station
/// has left the list; a current index equal to `i` is cleared, one greater
/// than `i` is one less, one smaller than `i` is unchanged.
pub proof fn lemma_delete_adjusts_current_index(s: ModelView, i: usize)
    requires
        s.pending is None,
        s.deleting_station_idx == Some(i),
        i < s.channels.len(),
    ensures
        ({
            let asked = step(s, MessageView::ConfirmDeleteStation);
            let done = step(asked.0, MessageView::SaveFinished(Ok(()))).0;
            &&& asked.1 == seq![CommandView::Save(s.channels.remove(i as int))]
            &&& done.channels == s.channels.remove(i as int)
            &&& done.pending is None
            &&& match s.current_channel_idx {
                Some(c) => if c == i {
                    done.current_channel_idx is None
                } else if c > i {
                    done.current_channel_idx == Some((c - 1) as usize)
                } else {
                    done.current_channel_idx == Some(c)
                },
                None => done.current_channel_idx is None,
            }
        }),
{
}

/// A failed write after an append leaves the list as it was before the
/// append, in length and in contents, and shows the error.
pub proof fn lemma_failed_save_undoes_append(s: ModelView, reason: ChannelErrorView)
    requires
        s.pending is None,
        validated(s.new_station_name, s.new_station_url) is Ok,
    ensures
        ({
            let fields = validated(s.new_station_name, s.new_station_url)->Ok_0;
            let asked = step(s, MessageView::SaveNewStation);
            let done = step(asked.0, MessageView::SaveFinished(Err(reason))).0;
            &&& asked.0.channels == s.channels.push(
                new_channel(fields.id, fields.name, fields.uri),
            )
            &&& asked.1 == seq![CommandView::Save(asked.0.channels)]
            &&& done.channels == s.channels
            &&& done.error_message == Some(save_failure_text(reason))
            &&& done.pending is None
        }),
{
    let asked = step(s, MessageView::SaveNewStation);
    assert(asked.0.channels.drop_last() =~= s.channels);
}

/// A failed write after a deletion puts the station back where it was: the
/// list is as it was before, the current index too, and the error is shown.
pub proof fn lemma_failed_save_undoes_delete(s: ModelView, i: usize, reason: ChannelErrorView)
    requires
        s.pending is None,
        s.deleting_station_idx == Some(i),
        i < s.channels.len(),
    ensures
        ({
            let asked = step(s, MessageView::ConfirmDeleteStation);
            let done = step(asked.0, MessageView::SaveFinished(Err(reason))).0;
            &&& done.channels == s.channels
            &&& done.current_channel_idx == s.current_channel_idx
            &&& done.error_message == Some(save_failure_text(reason))
            &&& done.pending is None
        }),
{
    assert(s.channels.remove(i as int).insert(i as int, s.channels[i as int]) =~= s.channels);
}

/// A valid edit changes the station in place: it takes the name and the
/// address of the form, without surrounding white space, and the identifier
/// derived from that name; it keeps its place and its favourite mark, and
/// every other station is unchanged. In particular the identifier stays as
/// it is where the derived one equals it.
pub proof fn lemma_edit_changes_station_in_place(s: ModelView, i: usize)
    requires
        s.pending is None,
        s.editing_station_idx == Some(i),
        i < s.channels.len(),
        validated(s.edit_station_name, s.edit_station_url) is Ok,
    ensures
        ({
            let fields = validated(s.edit_station_name, s.edit_station_url)->Ok_0;
            let asked = step(s, MessageView::SaveEditStation);
            &&& asked.0.channels.len() == s.channels.len()
            &&& asked.0.channels[i as int] == (ChannelView {
                id: derived_id(trimmed(s.edit_station_name)),
                name: trimmed(s.edit_station_name),
                uri: trimmed(s.edit_station_url),
                favourite: s.channels[i as int].favourite,
            })
            &&& forall|j: int|
                0 <= j < s.channels.len() && j != i ==> asked.0.channels[j] == s.channels[j]
            &&& fields.id == s.channels[i as int].id ==> asked.0.channels[i as int].id
                == s.channels[i as int].id
            &&& asked.1 == seq![CommandView::Save(asked.0.channels)]
        }),
{
}

/// A failed write after an edit shows the error and keeps the station as
/// edited: the edit is not undone.
pub proof fn lemma_failed_save_keeps_edit(s: ModelView, i: usize, reason: ChannelErrorView)
    requires
        s.pending is None,
        s.editing_station_idx == Some(i),
        i < s.channels.len(),
        validated(s.edit_station_name, s.edit_station_url) is Ok,
    ensures
        ({
            let fields = validated(s.edit_station_name, s.edit_station_url)->Ok_0;
            let asked = step(s, MessageView::SaveEditStation);
            let done = step(asked.0, MessageView::SaveFinished(Err(reason))).0;
            &&& done.channels == asked.0.channels
            &&& done.channels.len() == s.channels.len()
            &&& done.channels[i as int].name == fields.name
            &&& done.channels[i as int].uri == fields.uri
            &&& done.channels[i as int].id == fields.id
            &&& done.editing_station_idx == Some(i)
            &&& done.error_message == Some(save_failure_text(reason))
        }),
{
}

} // verus!
