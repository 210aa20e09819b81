use cosmic_internet_radio_applet::app::{form_error_text, AppModel, Command, Message};
use cosmic_internet_radio_applet::channels::{Channel, ChannelError, ChannelList};
use cosmic_internet_radio_applet::model::Screen;
use cosmic_internet_radio_applet::player::{BusNotice, EngineCreation, PlayState, Player};
use cosmic_internet_radio_applet::validation::ValidationError;

fn channel(id: &str, name: &str, uri: &str) -> Channel {
    Channel { id: id.to_string(), name: name.to_string(), uri: uri.to_string(), favourite: false }
}

fn stations() -> Vec<Channel> {
    vec![
        channel("fip-radio", "FIP Radio", "http://icecast.radiofrance.fr/fip-midfi.mp3"),
        channel("groove-salad", "Groove Salad", "https://somafm.com/groovesalad256.pls"),
        channel("jazz-247", "Jazz!! 24/7", "https://x.com/s"),
        channel("my-radio-station", "My Radio Station", "http://example.com/stream.mp3"),
    ]
}

fn names(model: &AppModel) -> Vec<String> {
    model.channels().iter().map(|c| c.name.clone()).collect()
}

fn ids(model: &AppModel) -> Vec<String> {
    model.channels().iter().map(|c| c.id.clone()).collect()
}

fn with_player() -> AppModel {
    AppModel::new(Some(Player::new(EngineCreation::Pipeline).unwrap()))
}

/// A model with the four stations loaded and a playback controller.
fn loaded() -> AppModel {
    let mut model = with_player();
    assert!(model.update(Message::ChannelsLoaded(stations())).is_empty());
    model
}

/// A model with the four stations, of which the one at `idx` plays.
fn playing(idx: usize) -> AppModel {
    let mut model = loaded();
    model.update(Message::PlayChannel(idx));
    model.update(Message::PlayFinished { idx, started: true });
    model.update(Message::PlayerStateChanged(PlayState::Playing));
    assert_eq!(model.current_channel_idx(), Some(idx));
    model
}

fn describe(commands: &[Command]) -> Vec<String> {
    commands
        .iter()
        .map(|c| match c {
            Command::Stop => "stop".to_string(),
            Command::Play { idx, uri } => format!("play {} {}", idx, uri),
            Command::Save(list) => format!(
                "save {}",
                list.channels.iter().map(|c| c.id.as_str()).collect::<Vec<_>>().join(",")
            ),
        })
        .collect()
}

fn write_failed() -> Message {
    Message::SaveFinished(Err(ChannelError::ReadError("disk full".to_string())))
}

fn fill_add_form(model: &mut AppModel, name: &str, url: &str) {
    model.update(Message::ToggleAddStation);
    model.update(Message::NewStationNameChanged(name.to_string()));
    model.update(Message::NewStationUrlChanged(url.to_string()));
}

fn delete(model: &mut AppModel, idx: usize) -> Vec<String> {
    model.update(Message::StartDeleteStation(idx));
    let asked = describe(&model.update(Message::ConfirmDeleteStation));
    let mut done = describe(&model.update(Message::SaveFinished(Ok(()))));
    let mut all = asked;
    all.append(&mut done);
    all
}

#[test]
fn initial_state_is_empty_and_stopped() {
    let model = with_player();
    assert!(model.channels().is_empty());
    assert_eq!(model.current_channel_idx(), None);
    assert_eq!(model.play_state(), PlayState::Null);
    assert!(model.has_player());
    assert!(model.error_message().is_none());
    assert!(!model.adding_station());
    assert_eq!(model.new_station_name(), "");
    assert_eq!(model.new_station_url(), "");
    assert_eq!(model.new_station_error(), None);
    assert_eq!(model.editing_station_idx(), None);
    assert_eq!(model.edit_station_name(), "");
    assert_eq!(model.edit_station_url(), "");
    assert_eq!(model.edit_station_error(), None);
    assert_eq!(model.deleting_station_idx(), None);
    assert!(!model.is_saving());
    assert!(!AppModel::new(None).has_player());
}

#[test]
fn default_state_has_no_controller() {
    let model = AppModel::default();
    assert!(!model.has_player());
    assert!(model.channels().is_empty());
    assert_eq!(model.current_channel_idx(), None);
    assert_eq!(model.screen(), Screen::AudioFailed);
}

#[test]
fn channels_loaded_replaces_the_list_and_clears_the_error() {
    let mut model = with_player();
    model.update(Message::ChannelError("Failed to parse TOML: oops".to_string()));
    assert_eq!(model.error_message().unwrap(), "Failed to parse TOML: oops");
    assert!(model.update(Message::ChannelsLoaded(stations())).is_empty());
    assert!(model.error_message().is_none());
    assert_eq!(names(&model), vec!["FIP Radio", "Groove Salad", "Jazz!! 24/7", "My Radio Station"]);
}

#[test]
fn channels_loaded_keeps_a_current_index_only_if_it_is_in_the_new_list() {
    let mut model = playing(3);
    model.update(Message::ChannelsLoaded(stations().into_iter().take(2).collect()));
    assert_eq!(model.current_channel_idx(), None);

    let mut model = playing(1);
    model.update(Message::ChannelsLoaded(stations().into_iter().take(2).collect()));
    assert_eq!(model.current_channel_idx(), Some(1));
}

#[test]
fn play_channel_stops_then_plays_the_address() {
    let mut model = loaded();
    let commands = model.update(Message::PlayChannel(1));
    assert_eq!(
        describe(&commands),
        vec!["stop", "play 1 https://somafm.com/groovesalad256.pls"]
    );
    assert_eq!(model.current_channel_idx(), None);
    model.update(Message::PlayFinished { idx: 1, started: true });
    assert_eq!(model.current_channel_idx(), Some(1));
    assert!(model.error_message().is_none());
}

#[test]
fn play_channel_outside_the_list_does_nothing() {
    let mut model = loaded();
    assert!(model.update(Message::PlayChannel(4)).is_empty());
    assert!(model.update(Message::PlayChannel(usize::MAX)).is_empty());
    assert_eq!(model.current_channel_idx(), None);
    assert!(model.error_message().is_none());
}

#[test]
fn play_channel_without_a_controller_does_nothing() {
    let mut model = AppModel::new(None);
    model.update(Message::ChannelsLoaded(stations()));
    assert!(model.update(Message::PlayChannel(0)).is_empty());
    assert_eq!(model.current_channel_idx(), None);
    assert!(model.error_message().is_none());
}

#[test]
fn failed_start_sets_the_error_and_leaves_the_current_index() {
    let mut model = playing(0);
    model.update(Message::PlayChannel(2));
    model.update(Message::PlayFinished { idx: 2, started: false });
    assert_eq!(model.error_message().unwrap(), "Failed to play Jazz!! 24/7");
    assert_eq!(model.current_channel_idx(), Some(0));

    let mut model = loaded();
    model.update(Message::PlayFinished { idx: 1, started: false });
    assert_eq!(model.error_message().unwrap(), "Failed to play Groove Salad");
    assert_eq!(model.current_channel_idx(), None);
}

#[test]
fn successful_start_clears_an_earlier_error() {
    let mut model = loaded();
    model.update(Message::PlayFinished { idx: 1, started: false });
    assert!(model.error_message().is_some());
    model.update(Message::PlayFinished { idx: 0, started: true });
    assert!(model.error_message().is_none());
    assert_eq!(model.current_channel_idx(), Some(0));
}

#[test]
fn answer_for_a_station_outside_the_list_is_ignored() {
    let mut model = loaded();
    model.update(Message::PlayFinished { idx: 4, started: true });
    assert_eq!(model.current_channel_idx(), None);
    model.update(Message::PlayFinished { idx: 9, started: false });
    assert!(model.error_message().is_none());
}

#[test]
fn stop_playback_clears_the_current_index() {
    let mut model = playing(2);
    assert_eq!(describe(&model.update(Message::StopPlayback)), vec!["stop"]);
    assert_eq!(model.current_channel_idx(), None);

    let mut model = AppModel::new(None);
    assert!(model.update(Message::StopPlayback).is_empty());
    assert_eq!(model.current_channel_idx(), None);
}

#[test]
fn toggle_playback_stops_only_what_plays() {
    let mut model = playing(2);
    assert_eq!(describe(&model.update(Message::TogglePlayback)), vec!["stop"]);
    assert_eq!(model.current_channel_idx(), None);

    let mut model = loaded();
    model.update(Message::PlayFinished { idx: 1, started: true });
    assert!(model.update(Message::TogglePlayback).is_empty());
    assert_eq!(model.current_channel_idx(), Some(1));

    let mut model = AppModel::new(None);
    model.update(Message::PlayerStateChanged(PlayState::Playing));
    assert!(model.update(Message::TogglePlayback).is_empty());
}

#[test]
fn engine_state_is_recorded_and_a_stopped_engine_has_no_current_station() {
    let mut model = playing(1);
    assert!(model.update(Message::PlayerStateChanged(PlayState::Paused)).is_empty());
    assert_eq!(model.play_state(), PlayState::Paused);
    assert_eq!(model.current_channel_idx(), Some(1));
    model.update(Message::PlayerStateChanged(PlayState::Ready));
    assert_eq!(model.current_channel_idx(), Some(1));
    model.update(Message::PlayerStateChanged(PlayState::VoidPending));
    assert_eq!(model.current_channel_idx(), Some(1));
    model.update(Message::PlayerStateChanged(PlayState::Null));
    assert_eq!(model.play_state(), PlayState::Null);
    assert_eq!(model.current_channel_idx(), None);
}

#[test]
fn metadata_changes_nothing() {
    let mut model = playing(1);
    assert!(model.update(Message::MetadataUpdated).is_empty());
    assert_eq!(model.current_channel_idx(), Some(1));
    assert_eq!(model.play_state(), PlayState::Playing);
}

#[test]
fn add_form_opens_and_closes() {
    let mut model = loaded();
    model.update(Message::ToggleAddStation);
    assert!(model.adding_station());
    model.update(Message::NewStationNameChanged("New".to_string()));
    model.update(Message::NewStationUrlChanged("nowhere".to_string()));
    model.update(Message::SaveNewStation);
    assert_eq!(model.new_station_error(), Some(ValidationError::UrlScheme));
    model.update(Message::ToggleAddStation);
    assert!(!model.adding_station());
    assert_eq!(model.new_station_name(), "");
    assert_eq!(model.new_station_url(), "");
    assert_eq!(model.new_station_error(), None);
}

#[test]
fn typing_clears_the_form_error() {
    let mut model = loaded();
    model.update(Message::ToggleAddStation);
    model.update(Message::SaveNewStation);
    assert_eq!(model.new_station_error(), Some(ValidationError::NameRequired));
    model.update(Message::NewStationNameChanged("A".to_string()));
    assert_eq!(model.new_station_error(), None);
    assert_eq!(model.new_station_name(), "A");
    model.update(Message::SaveNewStation);
    assert_eq!(model.new_station_error(), Some(ValidationError::UrlRequired));
    model.update(Message::NewStationUrlChanged("http://a".to_string()));
    assert_eq!(model.new_station_error(), None);
    assert_eq!(model.new_station_url(), "http://a");
}

#[test]
fn cancel_add_station_empties_the_form() {
    let mut model = loaded();
    fill_add_form(&mut model, "N", "u");
    model.update(Message::SaveNewStation);
    assert!(model.update(Message::CancelAddStation).is_empty());
    assert!(!model.adding_station());
    assert_eq!(model.new_station_name(), "");
    assert_eq!(model.new_station_url(), "");
    assert_eq!(model.new_station_error(), None);
    assert_eq!(model.channels().len(), 4);
}

#[test]
fn invalid_new_station_is_refused_without_a_write() {
    let cases = [
        ("", "http://x", ValidationError::NameRequired),
        ("Name", " ", ValidationError::UrlRequired),
        ("Name", "ftp://x", ValidationError::UrlScheme),
        ("!!!", "http://x", ValidationError::InvalidName),
    ];
    for (name, url, reason) in cases {
        let mut model = loaded();
        fill_add_form(&mut model, name, url);
        assert!(model.update(Message::SaveNewStation).is_empty());
        assert_eq!(model.new_station_error(), Some(reason));
        assert_eq!(model.channels().len(), 4);
        assert!(!model.is_saving());
        assert!(model.adding_station());
    }
}

#[test]
fn new_station_is_appended_and_saved() {
    let mut model = loaded();
    fill_add_form(&mut model, "  Radio Paradise ", " https://stream.radioparadise.com/aac-320 ");
    let commands = model.update(Message::SaveNewStation);
    assert_eq!(
        describe(&commands),
        vec!["save fip-radio,groove-salad,jazz-247,my-radio-station,radio-paradise"]
    );
    assert!(model.is_saving());
    let added = &model.channels()[4];
    assert_eq!(added.id, "radio-paradise");
    assert_eq!(added.name, "Radio Paradise");
    assert_eq!(added.uri, "https://stream.radioparadise.com/aac-320");
    assert!(!added.favourite);

    assert!(model.update(Message::SaveFinished(Ok(()))).is_empty());
    assert!(!model.is_saving());
    assert_eq!(model.channels().len(), 5);
    assert!(!model.adding_station());
    assert_eq!(model.new_station_name(), "");
    assert_eq!(model.new_station_url(), "");
    assert_eq!(model.new_station_error(), None);
    assert!(model.error_message().is_none());
}

#[test]
fn added_station_has_the_derived_id_of_the_examples() {
    let mut model = with_player();
    fill_add_form(&mut model, "My Radio Station", "http://example.com/stream.mp3");
    model.update(Message::SaveNewStation);
    model.update(Message::SaveFinished(Ok(())));
    fill_add_form(&mut model, "Jazz!! 24/7", "https://x.com/s");
    model.update(Message::SaveNewStation);
    model.update(Message::SaveFinished(Ok(())));
    assert_eq!(ids(&model), vec!["my-radio-station", "jazz-247"]);
}

#[test]
fn failed_save_after_an_append_leaves_the_list_as_it_was() {
    let mut model = playing(3);
    fill_add_form(&mut model, "Radio Paradise", "https://stream.radioparadise.com/aac-320");
    model.update(Message::SaveNewStation);
    assert_eq!(model.channels().len(), 5);
    assert!(model.update(write_failed()).is_empty());
    assert_eq!(model.channels().len(), 4);
    assert_eq!(names(&model), vec!["FIP Radio", "Groove Salad", "Jazz!! 24/7", "My Radio Station"]);
    assert_eq!(ids(&model), vec!["fip-radio", "groove-salad", "jazz-247", "my-radio-station"]);
    assert_eq!(
        model.error_message().unwrap(),
        "Failed to save: Failed to read config file: disk full"
    );
    assert!(!model.is_saving());
    assert_eq!(model.current_channel_idx(), Some(3));
    assert!(model.adding_station());
    assert_eq!(model.new_station_name(), "Radio Paradise");
}

#[test]
fn failed_save_names_the_kind_of_failure() {
    let mut model = loaded();
    fill_add_form(&mut model, "A", "http://a");
    model.update(Message::SaveNewStation);
    model.update(Message::SaveFinished(Err(ChannelError::SerializeError("bad".to_string()))));
    assert_eq!(model.error_message().unwrap(), "Failed to save: Failed to serialize TOML: bad");
}

#[test]
fn while_a_write_is_awaited_other_events_are_not_taken() {
    let mut model = loaded();
    fill_add_form(&mut model, "A", "http://a");
    model.update(Message::SaveNewStation);
    assert!(model.is_saving());
    assert!(model.update(Message::PlayChannel(0)).is_empty());
    assert!(model.update(Message::StartDeleteStation(0)).is_empty());
    assert!(model.update(Message::ChannelsLoaded(Vec::new())).is_empty());
    assert!(model.update(Message::SaveNewStation).is_empty());
    assert!(model.update(Message::CancelAddStation).is_empty());
    assert_eq!(model.channels().len(), 5);
    assert_eq!(model.deleting_station_idx(), None);
    assert!(model.adding_station());
    assert!(model.is_saving());
    model.update(Message::SaveFinished(Ok(())));
    assert!(!model.is_saving());
    assert_eq!(model.channels().len(), 5);
}

#[test]
fn outcome_of_a_write_that_nobody_awaits_is_ignored() {
    let mut model = playing(1);
    assert!(model.update(write_failed()).is_empty());
    assert!(model.update(Message::SaveFinished(Ok(()))).is_empty());
    assert!(model.error_message().is_none());
    assert_eq!(model.channels().len(), 4);
    assert_eq!(model.current_channel_idx(), Some(1));
}

#[test]
fn edit_form_is_filled_from_the_station() {
    let mut model = loaded();
    assert!(model.update(Message::StartEditStation(2)).is_empty());
    assert_eq!(model.editing_station_idx(), Some(2));
    assert_eq!(model.edit_station_name(), "Jazz!! 24/7");
    assert_eq!(model.edit_station_url(), "https://x.com/s");
    assert_eq!(model.edit_station_error(), None);

    model.update(Message::CancelEditStation);
    model.update(Message::StartEditStation(4));
    assert_eq!(model.editing_station_idx(), None);
    assert_eq!(model.edit_station_name(), "");
}

#[test]
fn cancel_edit_station_empties_the_form() {
    let mut model = loaded();
    model.update(Message::StartEditStation(1));
    model.update(Message::EditStationUrlChanged("x".to_string()));
    model.update(Message::SaveEditStation);
    assert_eq!(model.edit_station_error(), Some(ValidationError::UrlScheme));
    model.update(Message::CancelEditStation);
    assert_eq!(model.editing_station_idx(), None);
    assert_eq!(model.edit_station_name(), "");
    assert_eq!(model.edit_station_url(), "");
    assert_eq!(model.edit_station_error(), None);
    assert_eq!(names(&model)[1], "Groove Salad");
}

#[test]
fn invalid_edit_is_refused_without_a_write() {
    let cases = [
        (" ", "http://x", ValidationError::NameRequired),
        ("Name", "", ValidationError::UrlRequired),
        ("Name", "rtsp://x", ValidationError::UrlScheme),
        ("???", "http://x", ValidationError::InvalidName),
    ];
    for (name, url, reason) in cases {
        let mut model = loaded();
        model.update(Message::StartEditStation(0));
        model.update(Message::EditStationNameChanged(name.to_string()));
        model.update(Message::EditStationUrlChanged(url.to_string()));
        assert_eq!(model.edit_station_error(), None);
        assert!(model.update(Message::SaveEditStation).is_empty());
        assert_eq!(model.edit_station_error(), Some(reason));
        assert_eq!(names(&model)[0], "FIP Radio");
        assert_eq!(model.editing_station_idx(), Some(0));
        assert!(!model.is_saving());
    }
}

#[test]
fn save_edit_without_an_open_form_does_nothing() {
    let mut model = loaded();
    assert!(model.update(Message::SaveEditStation).is_empty());
    assert_eq!(model.edit_station_error(), None);
    assert!(!model.is_saving());
}

#[test]
fn edit_changes_the_station_in_place() {
    let mut model = loaded();
    model.update(Message::ChannelsLoaded(vec![
        channel("a", "A", "http://a"),
        Channel {
            id: "b".to_string(),
            name: "B".to_string(),
            uri: "http://b".to_string(),
            favourite: true,
        },
    ]));
    model.update(Message::StartEditStation(1));
    model.update(Message::EditStationNameChanged(" Beta Radio ".to_string()));
    model.update(Message::EditStationUrlChanged("https://beta".to_string()));
    let commands = model.update(Message::SaveEditStation);
    assert_eq!(describe(&commands), vec!["save a,beta-radio"]);
    assert!(model.update(Message::SaveFinished(Ok(()))).is_empty());
    let edited = &model.channels()[1];
    assert_eq!(edited.id, "beta-radio");
    assert_eq!(edited.name, "Beta Radio");
    assert_eq!(edited.uri, "https://beta");
    assert!(edited.favourite);
    assert_eq!(names(&model), vec!["A", "Beta Radio"]);
    assert_eq!(model.editing_station_idx(), None);
    assert_eq!(model.edit_station_name(), "");
    assert_eq!(model.edit_station_url(), "");
}

#[test]
fn edit_that_keeps_the_name_keeps_the_id() {
    let mut model = loaded();
    model.update(Message::StartEditStation(0));
    model.update(Message::EditStationUrlChanged("https://fip.example/stream".to_string()));
    model.update(Message::SaveEditStation);
    model.update(Message::SaveFinished(Ok(())));
    assert_eq!(model.channels()[0].id, "fip-radio");
    assert_eq!(model.channels()[0].uri, "https://fip.example/stream");
}

#[test]
fn edit_of_the_current_station_stops_playback() {
    let mut model = playing(2);
    model.update(Message::StartEditStation(2));
    model.update(Message::EditStationUrlChanged("https://y.com/s".to_string()));
    let asked = model.update(Message::SaveEditStation);
    assert_eq!(describe(&asked).len(), 1);
    assert_eq!(model.current_channel_idx(), Some(2));
    assert_eq!(describe(&model.update(Message::SaveFinished(Ok(())))), vec!["stop"]);
    assert_eq!(model.current_channel_idx(), None);
}

#[test]
fn edit_of_another_station_leaves_playback_alone() {
    let mut model = playing(2);
    model.update(Message::StartEditStation(0));
    model.update(Message::EditStationNameChanged("France Inter Paris".to_string()));
    model.update(Message::SaveEditStation);
    assert!(model.update(Message::SaveFinished(Ok(()))).is_empty());
    assert_eq!(model.current_channel_idx(), Some(2));
    assert_eq!(model.channels()[0].id, "france-inter-paris");
}

#[test]
fn failed_save_after_an_edit_keeps_the_edit_and_the_form() {
    let mut model = playing(1);
    model.update(Message::StartEditStation(1));
    model.update(Message::EditStationNameChanged("Groove".to_string()));
    model.update(Message::SaveEditStation);
    assert!(model.update(write_failed()).is_empty());
    assert_eq!(model.channels()[1].name, "Groove");
    assert_eq!(model.channels()[1].id, "groove");
    assert_eq!(model.editing_station_idx(), Some(1));
    assert_eq!(model.edit_station_name(), "Groove");
    assert_eq!(model.current_channel_idx(), Some(1));
    assert_eq!(
        model.error_message().unwrap(),
        "Failed to save: Failed to read config file: disk full"
    );
    assert!(!model.is_saving());
}

#[test]
fn edit_of_a_station_that_left_the_list_does_nothing() {
    let mut model = loaded();
    model.update(Message::StartEditStation(3));
    model.update(Message::ChannelsLoaded(stations().into_iter().take(2).collect()));
    assert!(model.update(Message::SaveEditStation).is_empty());
    assert!(!model.is_saving());
    assert_eq!(model.channels().len(), 2);
}

#[test]
fn delete_is_asked_for_then_confirmed() {
    let mut model = loaded();
    assert!(model.update(Message::StartDeleteStation(1)).is_empty());
    assert_eq!(model.deleting_station_idx(), Some(1));
    assert_eq!(model.channels().len(), 4);
    let commands = model.update(Message::ConfirmDeleteStation);
    assert_eq!(describe(&commands), vec!["save fip-radio,jazz-247,my-radio-station"]);
    assert_eq!(model.deleting_station_idx(), None);
    assert!(model.is_saving());
    assert!(model.update(Message::SaveFinished(Ok(()))).is_empty());
    assert_eq!(names(&model), vec!["FIP Radio", "Jazz!! 24/7", "My Radio Station"]);
    assert!(!model.is_saving());
}

#[test]
fn cancel_delete_keeps_the_station() {
    let mut model = loaded();
    model.update(Message::StartDeleteStation(1));
    assert!(model.update(Message::CancelDeleteStation).is_empty());
    assert_eq!(model.deleting_station_idx(), None);
    assert!(model.update(Message::ConfirmDeleteStation).is_empty());
    assert_eq!(model.channels().len(), 4);
}

#[test]
fn delete_outside_the_list_only_ends_the_request() {
    let mut model = loaded();
    model.update(Message::StartDeleteStation(4));
    assert!(model.update(Message::ConfirmDeleteStation).is_empty());
    assert_eq!(model.deleting_station_idx(), None);
    assert_eq!(model.channels().len(), 4);
    assert!(!model.is_saving());
}

#[test]
fn deleting_the_current_station_clears_the_current_index() {
    for i in 0..4 {
        let mut model = playing(i);
        assert_eq!(delete(&mut model, i).last().unwrap(), "stop");
        assert_eq!(model.current_channel_idx(), None);
        assert_eq!(model.channels().len(), 3);
    }
}

#[test]
fn deleting_before_the_current_station_moves_the_index_down_by_one() {
    for current in 1..4 {
        for i in 0..current {
            let mut model = playing(current);
            let name = model.channels()[current].name.clone();
            let commands = delete(&mut model, i);
            assert_eq!(commands.len(), 1);
            assert_eq!(model.current_channel_idx(), Some(current - 1));
            assert_eq!(model.channels()[current - 1].name, name);
        }
    }
}

#[test]
fn deleting_behind_the_current_station_leaves_the_index() {
    for current in 0..3 {
        for i in (current + 1)..4 {
            let mut model = playing(current);
            let name = model.channels()[current].name.clone();
            let commands = delete(&mut model, i);
            assert_eq!(commands.len(), 1);
            assert_eq!(model.current_channel_idx(), Some(current));
            assert_eq!(model.channels()[current].name, name);
        }
    }
}

#[test]
fn deleting_without_a_current_station_leaves_none() {
    let mut model = loaded();
    assert_eq!(delete(&mut model, 0).len(), 1);
    assert_eq!(model.current_channel_idx(), None);
    assert_eq!(names(&model), vec!["Groove Salad", "Jazz!! 24/7", "My Radio Station"]);
}

#[test]
fn failed_save_after_a_delete_puts_the_station_back() {
    for i in 0..4 {
        let mut model = playing(3);
        model.update(Message::StartDeleteStation(i));
        model.update(Message::ConfirmDeleteStation);
        assert_eq!(model.channels().len(), 3);
        assert!(model.update(write_failed()).is_empty());
        assert_eq!(
            names(&model),
            vec!["FIP Radio", "Groove Salad", "Jazz!! 24/7", "My Radio Station"]
        );
        assert_eq!(model.current_channel_idx(), Some(3));
        assert_eq!(model.deleting_station_idx(), None);
        assert_eq!(
            model.error_message().unwrap(),
            "Failed to save: Failed to read config file: disk full"
        );
    }
}

#[test]
fn deleting_the_only_station_empties_the_list() {
    let mut model = with_player();
    model.update(Message::ChannelsLoaded(vec![channel("a", "A", "http://a")]));
    model.update(Message::PlayFinished { idx: 0, started: true });
    assert_eq!(delete(&mut model, 0), vec!["save ", "stop"]);
    assert!(model.channels().is_empty());
    assert_eq!(model.current_channel_idx(), None);
}

#[test]
fn screens_in_order_of_precedence() {
    let mut model = AppModel::new(None);
    model.update(Message::ChannelError("e".to_string()));
    assert_eq!(model.screen(), Screen::AudioFailed);

    let mut model = with_player();
    assert_eq!(model.screen(), Screen::Loading);
    model.update(Message::ToggleAddStation);
    assert_eq!(model.screen(), Screen::AddStation);
    model.update(Message::StartDeleteStation(7));
    assert_eq!(model.screen(), Screen::ConfirmDelete(7));
    model.update(Message::ChannelsLoaded(stations()));
    model.update(Message::StartEditStation(2));
    assert_eq!(model.screen(), Screen::EditStation(2));
    model.update(Message::ChannelError("e".to_string()));
    assert_eq!(model.screen(), Screen::Error);

    assert_eq!(loaded().screen(), Screen::ChannelList);
}

#[test]
fn panel_icon_tells_whether_audio_works() {
    assert_eq!(with_player().panel_icon(), "audio-card-symbolic");
    assert_eq!(AppModel::new(None).panel_icon(), "dialog-error-symbolic");
}

#[test]
fn header_names_the_current_station() {
    assert_eq!(loaded().header_text(), "Internet Radio");
    assert_eq!(playing(1).header_text(), "Now Playing: Groove Salad");
    let mut model = playing(1);
    model.update(Message::PlayerStateChanged(PlayState::Paused));
    assert_eq!(model.header_text(), "Now Playing: Groove Salad");
}

#[test]
fn rows_offer_stop_for_the_station_that_plays_and_play_for_the_others() {
    let model = playing(1);
    assert!(model.shows_stop_button());
    assert!(model.is_playing(1));
    assert!(!model.is_playing(0));
    assert_eq!(model.row_icon(1), "media-playback-stop-symbolic");
    assert_eq!(model.row_icon(0), "media-playback-start-symbolic");
    assert!(matches!(model.row_message(1), Message::StopPlayback));
    assert!(matches!(model.row_message(0), Message::PlayChannel(0)));

    let mut model = loaded();
    model.update(Message::PlayFinished { idx: 1, started: true });
    assert!(!model.shows_stop_button());
    assert!(!model.is_playing(1));
    assert_eq!(model.row_icon(1), "media-playback-start-symbolic");
    assert!(matches!(model.row_message(1), Message::PlayChannel(1)));
}

#[test]
fn delete_question_names_the_station() {
    let model = loaded();
    assert_eq!(model.delete_question(0), "Are you sure you want to delete 'FIP Radio'");
    assert_eq!(model.delete_question(4), "Are you sure you want to delete 'this station'");
}

#[test]
fn form_error_line() {
    assert_eq!(form_error_text(ValidationError::NameRequired), "Error: Station name is required");
    assert_eq!(
        form_error_text(ValidationError::UrlScheme),
        "Error: URL must start with http:// or https://"
    );
}

#[test]
fn bus_notices_become_events() {
    let own = BusNotice::StateChanged { from_pipeline: true, current: PlayState::Playing };
    assert!(matches!(
        Message::from_bus(own),
        Some(Message::PlayerStateChanged(PlayState::Playing))
    ));
    let other = BusNotice::StateChanged { from_pipeline: false, current: PlayState::Playing };
    assert!(Message::from_bus(other).is_none());
    assert!(matches!(Message::from_bus(BusNotice::Tag), Some(Message::MetadataUpdated)));
    assert!(matches!(
        Message::from_bus(BusNotice::Error),
        Some(Message::PlayerStateChanged(PlayState::Null))
    ));
    assert!(Message::from_bus(BusNotice::Other).is_none());
}

#[test]
fn engine_error_ends_the_session() {
    let mut model = playing(2);
    let event = Message::from_bus(BusNotice::Error).unwrap();
    model.update(event);
    assert_eq!(model.current_channel_idx(), None);
    assert_eq!(model.play_state(), PlayState::Null);
}

#[test]
fn outcome_of_loading_becomes_an_event() {
    match Message::from_load(Ok(ChannelList { channels: stations() })) {
        Message::ChannelsLoaded(list) => assert_eq!(list.len(), 4),
        other => panic!("unexpected event {:?}", other),
    }
    match Message::from_load(Err(ChannelError::ParseError("line 2".to_string()))) {
        Message::ChannelError(text) => assert_eq!(text, "Failed to parse TOML: line 2"),
        other => panic!("unexpected event {:?}", other),
    }
}

#[test]
fn message_clone_keeps_the_payload() {
    match Message::ChannelsLoaded(stations()).clone() {
        Message::ChannelsLoaded(list) => {
            assert_eq!(list.len(), 4);
            assert_eq!(list[2].id, "jazz-247");
        }
        other => panic!("unexpected event {:?}", other),
    }
    assert!(matches!(
        Message::PlayFinished { idx: 3, started: true }.clone(),
        Message::PlayFinished { idx: 3, started: true }
    ));
    assert!(matches!(write_failed().clone(), Message::SaveFinished(Err(ChannelError::ReadError(_)))));
    match Message::NewStationNameChanged("n".to_string()).clone() {
        Message::NewStationNameChanged(text) => assert_eq!(text, "n"),
        other => panic!("unexpected event {:?}", other),
    }
}

#[test]
fn current_index_is_always_in_the_list_between_writes() {
    let mut model = loaded();
    let events = vec![
        Message::PlayFinished { idx: 3, started: true },
        Message::StartDeleteStation(0),
        Message::ConfirmDeleteStation,
        Message::SaveFinished(Ok(())),
        Message::StartDeleteStation(2),
        Message::ConfirmDeleteStation,
        Message::SaveFinished(Err(ChannelError::ReadError("x".to_string()))),
        Message::StartDeleteStation(2),
        Message::ConfirmDeleteStation,
        Message::SaveFinished(Ok(())),
        Message::PlayFinished { idx: 1, started: true },
        Message::ChannelsLoaded(vec![channel("a", "A", "http://a")]),
        Message::PlayFinished { idx: 0, started: true },
        Message::StartDeleteStation(0),
        Message::ConfirmDeleteStation,
        Message::SaveFinished(Ok(())),
    ];
    for event in events {
        model.update(event);
        if !model.is_saving() {
            if let Some(current) = model.current_channel_idx() {
                assert!(current < model.channels().len());
            }
        }
    }
    assert!(model.channels().is_empty());
    assert_eq!(model.current_channel_idx(), None);
}
