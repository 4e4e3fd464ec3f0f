use jukebox::command::{Command, CommandType};
use jukebox::fetch::{Catalog, Fetcher};
use jukebox::interact::print_help;
use jukebox::invoke::{
    create_message, parse_play_args, play_track_collection, select_track_collection,
    send_to_player, CollectionKind, FetchTask, Invoker, KeyPress, Next, PlayRequest, Reply,
    TrackCollection,
};
use jukebox::model::{AlbumModel, AlbumWrapperModel, ArtistModel};
use jukebox::play::{Message, Player, PlayerEvent, PlayerState, TrackData};
use jukebox::track::{Album, Artist, Playlist, SpotifyId, Track};

fn tracks(list: &[u128]) -> Vec<SpotifyId> {
    list.iter().map(|n| SpotifyId::track(*n)).collect()
}

fn args(list: &[&str]) -> Vec<String> {
    list.iter().map(|s| s.to_string()).collect()
}

fn a_playlist(name: &str, list: &[u128]) -> Playlist {
    Playlist { name: name.to_string(), tracks: tracks(list) }
}

fn an_album(name: &str, artist: &str, list: &[u128]) -> (AlbumWrapperModel, Album) {
    (
        AlbumWrapperModel {
            album: AlbumModel {
                id: "6akEvsycLGftJxYudPjmqK".to_string(),
                name: name.to_string(),
                artists: vec![ArtistModel {
                    id: "1dfeR4HaWDbWqFHLkxsg1d".to_string(),
                    name: artist.to_string(),
                }],
            },
        },
        Album { id: SpotifyId::track(900), name: name.to_string(), tracks: tracks(list) },
    )
}

fn dispatcher() -> Invoker {
    let fetcher = Fetcher::new(
        vec![
            a_playlist("Zen Garden", &[10, 11]),
            a_playlist("Road Trip", &[1, 2, 3]),
            a_playlist("Road Works", &[20]),
            a_playlist("Nothing", &[]),
        ],
        vec![
            an_album("Blue Train", "John Coltrane", &[31, 32, 33, 34]),
            an_album("Kind of Blue", "Miles Davis", &[41, 42]),
        ],
    );
    Invoker::new("listener".to_string(), fetcher)
}

fn huh() -> Reply {
    Reply { message: None, lines: vec!["Huh?".to_string()], next: Next::Prompt }
}

fn not_found() -> Reply {
    Reply { message: None, lines: vec!["Not found".to_string()], next: Next::Prompt }
}

fn fetch(list: &[u128]) -> Reply {
    Reply { message: None, lines: Vec::new(), next: Next::Fetch { tracks: tracks(list) } }
}

fn a_track(n: u128) -> Track {
    Track { id: SpotifyId::track(n), name: format!("t{}", n), artists: vec![SpotifyId::track(n + 100)] }
}

fn an_artist(n: u128) -> Artist {
    Artist { id: SpotifyId::track(n + 100), name: format!("a{}", n) }
}

fn data(n: u128) -> TrackData {
    TrackData { track: a_track(n), artist: format!("a{}", n) }
}

fn sorted(mut list: Vec<SpotifyId>) -> Vec<u128> {
    list.sort_by_key(|id| id.id);
    list.iter().map(|id| id.id).collect()
}

#[test]
fn play_without_arguments_is_not_understood() {
    assert_eq!(dispatcher().play(Vec::new()), huh());
}

#[test]
fn play_with_an_unknown_kind_is_not_understood() {
    let invoker = dispatcher();
    assert_eq!(invoker.play(args(&["song", "Road"])), huh());
    assert_eq!(invoker.play(args(&["playlists", "Road"])), huh());
    assert_eq!(invoker.play(args(&["Playlist"])), huh());
    assert_eq!(invoker.play(args(&["shuffle", "playlist", "Road"])), huh());
    assert_eq!(invoker.play(args(&["albums"])), huh());
}

#[test]
fn play_finds_a_playlist_by_a_part_of_its_name() {
    assert_eq!(dispatcher().play(args(&["playlist", "Trip"])), fetch(&[1, 2, 3]));
}

#[test]
fn play_takes_the_first_match_in_catalog_order() {
    let invoker = dispatcher();
    assert_eq!(invoker.play(args(&["playlist", "Road"])), fetch(&[1, 2, 3]));
    assert_eq!(invoker.play(args(&["playlist", "Road", "W"])), fetch(&[20]));
    assert_eq!(invoker.play(args(&["playlist", "n"])), fetch(&[10, 11]));
}

#[test]
fn play_joins_the_words_of_the_name_with_single_spaces() {
    let invoker = dispatcher();
    assert_eq!(invoker.play(args(&["album", "Kind", "of", "Blue"])), fetch(&[41, 42]));
    assert_eq!(invoker.play(args(&["album", "Blue", "Train", "-", "John"])), fetch(&[31, 32, 33, 34]));
}

#[test]
fn play_matches_names_by_case() {
    let invoker = dispatcher();
    assert_eq!(invoker.play(args(&["playlist", "road"])), not_found());
    assert_eq!(invoker.play(args(&["album", "blue"])), not_found());
}

#[test]
fn play_looks_only_among_collections_of_the_kind() {
    let invoker = dispatcher();
    assert_eq!(invoker.play(args(&["album", "Road"])), not_found());
    assert_eq!(invoker.play(args(&["playlist", "Blue"])), not_found());
}

#[test]
fn play_of_an_album_finds_it_by_its_artist_too() {
    assert_eq!(dispatcher().play(args(&["album", "Miles"])), fetch(&[41, 42]));
}

#[test]
fn play_of_an_empty_collection_fetches_nothing() {
    assert_eq!(dispatcher().play(args(&["playlist", "Nothing"])), fetch(&[]));
}

#[test]
fn play_without_a_name_has_the_user_pick() {
    let invoker = dispatcher();
    assert_eq!(
        invoker.play(args(&["playlist"])),
        Reply {
            message: None,
            lines: Vec::new(),
            next: Next::Choose { kind: CollectionKind::Playlist, shuffle: false },
        }
    );
    assert_eq!(
        invoker.play(args(&["album", "shuffle"])),
        Reply {
            message: None,
            lines: Vec::new(),
            next: Next::Choose { kind: CollectionKind::Album, shuffle: true },
        }
    );
}

#[test]
fn choices_are_the_names_in_catalog_order() {
    let invoker = dispatcher();
    assert_eq!(
        invoker.choices(CollectionKind::Playlist),
        args(&["Zen Garden", "Road Trip", "Road Works", "Nothing"])
    );
    assert_eq!(
        invoker.choices(CollectionKind::Album),
        args(&["Blue Train - John Coltrane", "Kind of Blue - Miles Davis"])
    );
}

#[test]
fn play_selected_plays_the_pick() {
    let invoker = dispatcher();
    assert_eq!(invoker.play_selected(CollectionKind::Playlist, false, Some(1)), fetch(&[1, 2, 3]));
    assert_eq!(invoker.play_selected(CollectionKind::Album, false, Some(1)), fetch(&[41, 42]));
}

#[test]
fn a_pick_that_was_given_up_counts_as_not_found() {
    let invoker = dispatcher();
    assert_eq!(invoker.play_selected(CollectionKind::Playlist, false, None), not_found());
    assert_eq!(invoker.play_selected(CollectionKind::Album, true, None), not_found());
}

#[test]
fn a_pick_outside_the_catalog_counts_as_not_found() {
    let invoker = dispatcher();
    assert_eq!(invoker.play_selected(CollectionKind::Playlist, false, Some(4)), not_found());
    assert_eq!(invoker.play_selected(CollectionKind::Album, false, Some(2)), not_found());
}

#[test]
fn shuffled_play_holds_the_same_tracks() {
    let invoker = dispatcher();
    for _ in 0..20 {
        let reply = invoker.play(args(&["playlist", "shuffle", "Road", "Trip"]));
        assert_eq!(reply.message, None);
        assert!(reply.lines.is_empty());
        match reply.next {
            Next::Fetch { tracks } => assert_eq!(sorted(tracks), vec![1, 2, 3]),
            other => panic!("unexpected {:?}", other),
        }
    }
}

#[test]
fn shuffled_play_of_an_album_holds_the_same_tracks() {
    let reply = dispatcher().play(args(&["album", "shuffle", "Blue Train"]));
    match reply.next {
        Next::Fetch { tracks } => assert_eq!(sorted(tracks), vec![31, 32, 33, 34]),
        other => panic!("unexpected {:?}", other),
    }
}

#[test]
fn shuffle_is_a_word_of_the_name_anywhere_but_in_second_place() {
    let mut playlists = vec![a_playlist("shuffle mix", &[5, 6])];
    playlists.push(a_playlist("late shuffle", &[7]));
    let invoker = Invoker::new("u".to_string(), Fetcher::new(playlists, Vec::new()));
    assert_eq!(invoker.play(args(&["playlist", "late", "shuffle"])), fetch(&[7]));
    let reply = invoker.play(args(&["playlist", "shuffle", "shuffle"]));
    match reply.next {
        Next::Fetch { tracks } => assert_eq!(sorted(tracks), vec![5, 6]),
        other => panic!("unexpected {:?}", other),
    }
}

#[test]
fn shuffled_tracks_are_a_permutation_in_a_new_order() {
    let all: Vec<u128> = (0..200).collect();
    let playlist = a_playlist("Long", &all);
    let shuffled = playlist.shuffled_tracks();
    assert_ne!(shuffled, playlist.tracks);
    assert_eq!(sorted(shuffled), all);
    let again = playlist.shuffled_tracks();
    assert_ne!(again, playlist.tracks);
    assert_eq!(sorted(again), all);
    assert_eq!(playlist.tracks(), tracks(&all));
}

#[test]
fn shuffled_tracks_keep_repeated_tracks() {
    let album = Album {
        id: SpotifyId::track(1),
        name: "Twice".to_string(),
        tracks: tracks(&[4, 4, 9, 4, 9]),
    };
    for _ in 0..10 {
        assert_eq!(sorted(album.shuffled_tracks()), vec![4, 4, 4, 9, 9]);
    }
    assert_eq!(album.shuffled_tracks().len(), 5);
}

#[test]
fn shuffle_of_none_and_of_one() {
    assert_eq!(a_playlist("Empty", &[]).shuffled_tracks(), Vec::new());
    assert_eq!(a_playlist("One", &[8]).shuffled_tracks(), tracks(&[8]));
}

#[test]
fn collections_give_their_name_and_tracks() {
    let playlist = a_playlist("Road Trip", &[1, 2, 3]);
    assert_eq!(playlist.name(), "Road Trip");
    assert_eq!(playlist.tracks(), tracks(&[1, 2, 3]));
    let (_, album) = an_album("Blue Train", "John Coltrane", &[3, 1, 2]);
    assert_eq!(album.name(), "Blue Train");
    assert_eq!(album.tracks(), tracks(&[3, 1, 2]));
}

#[test]
fn play_track_collection_keeps_the_order_unless_shuffled() {
    let playlist = a_playlist("Road Trip", &[3, 1, 2]);
    assert_eq!(play_track_collection(&playlist, false), tracks(&[3, 1, 2]));
    assert_eq!(sorted(play_track_collection(&playlist, true)), vec![1, 2, 3]);
}

#[test]
fn select_track_collection_by_name_or_by_pick() {
    let mut catalog: Catalog<Playlist> = Catalog::new();
    catalog.insert("Zen Road".to_string(), a_playlist("Zen Road", &[1]));
    catalog.insert("Road Trip".to_string(), a_playlist("Road Trip", &[2]));
    assert_eq!(
        select_track_collection(&catalog, "Road", None),
        Some(&a_playlist("Zen Road", &[1]))
    );
    assert_eq!(
        select_track_collection(&catalog, "Road", Some(1)),
        Some(&a_playlist("Zen Road", &[1]))
    );
    assert_eq!(
        select_track_collection(&catalog, "Trip", None),
        Some(&a_playlist("Road Trip", &[2]))
    );
    assert_eq!(select_track_collection(&catalog, "trip", None), None);
    assert_eq!(select_track_collection(&catalog, "", Some(1)), Some(&a_playlist("Road Trip", &[2])));
    assert_eq!(select_track_collection(&catalog, "", Some(2)), None);
    assert_eq!(select_track_collection(&catalog, "", None), None);
}

#[test]
fn a_collection_without_a_name_is_not_found_by_a_name_that_matches_nothing() {
    let mut catalog: Catalog<Playlist> = Catalog::new();
    catalog.insert(String::new(), a_playlist("", &[1]));
    assert_eq!(select_track_collection(&catalog, "x", None), None);
    assert_eq!(select_track_collection(&catalog, "", None), None);
}

#[test]
fn play_arguments_parse_into_a_request() {
    assert_eq!(parse_play_args(&Vec::new()), None);
    assert_eq!(parse_play_args(&args(&["tape"])), None);
    assert_eq!(
        parse_play_args(&args(&["playlist"])),
        Some(PlayRequest { kind: CollectionKind::Playlist, shuffle: false, name: String::new() })
    );
    assert_eq!(
        parse_play_args(&args(&["album", "shuffle"])),
        Some(PlayRequest { kind: CollectionKind::Album, shuffle: true, name: String::new() })
    );
    assert_eq!(
        parse_play_args(&args(&["album", "shuffle", "Kind", "of", "Blue"])),
        Some(PlayRequest {
            kind: CollectionKind::Album,
            shuffle: true,
            name: "Kind of Blue".to_string(),
        })
    );
    assert_eq!(
        parse_play_args(&args(&["playlist", "Road", "shuffle"])),
        Some(PlayRequest {
            kind: CollectionKind::Playlist,
            shuffle: false,
            name: "Road shuffle".to_string(),
        })
    );
}

#[test]
fn list_prints_every_name_in_catalog_order() {
    let invoker = dispatcher();
    let playlists = Reply {
        message: None,
        lines: args(&["Zen Garden", "Road Trip", "Road Works", "Nothing"]),
        next: Next::Prompt,
    };
    assert_eq!(invoker.list(args(&["playlist"])), playlists);
    assert_eq!(invoker.list(args(&["playlists", "more"])), playlists);
    let albums = Reply {
        message: None,
        lines: args(&["Blue Train - John Coltrane", "Kind of Blue - Miles Davis"]),
        next: Next::Prompt,
    };
    assert_eq!(invoker.list(args(&["album"])), albums);
    assert_eq!(invoker.list(args(&["albums"])), albums);
}

#[test]
fn list_without_a_kind_is_not_understood() {
    let invoker = dispatcher();
    assert_eq!(invoker.list(Vec::new()), huh());
    assert_eq!(invoker.list(args(&["songs"])), huh());
    assert_eq!(invoker.list(args(&["Albums"])), huh());
}

#[test]
fn stop_sends_stop_playing() {
    assert_eq!(
        dispatcher().stop(),
        Reply { message: Some(Message::StopPlaying), lines: Vec::new(), next: Next::Prompt }
    );
}

#[test]
fn quit_sends_quit_and_says_farewell() {
    assert_eq!(
        dispatcher().quit(),
        Reply {
            message: Some(Message::Quit),
            lines: vec!["Come back soon!".to_string()],
            next: Next::Exit,
        }
    );
}

#[test]
fn whoami_prints_the_user_name() {
    assert_eq!(
        dispatcher().whoami(),
        Reply { message: None, lines: vec!["listener".to_string()], next: Next::Prompt }
    );
}

#[test]
fn help_prints_the_usage_summary() {
    let reply = dispatcher().help();
    assert_eq!(reply.message, None);
    assert_eq!(reply.next, Next::Prompt);
    assert_eq!(reply.lines, print_help());
    assert_eq!(
        reply.lines,
        args(&[
            "Available Commands:",
            "play playlist/album         Select and play a playlist/album",
            "play playlist/album <name>  Play a playlist/album with name <name>",
            "pause                       Pause the music (has no effect yet)",
            "stop                        Stop the music",
            "ls/list playlist/album      Print list of available playlists/albums",
            "whoami                      Print your username",
            "help/man                    Print list of available commands",
            "quit                        Exit program",
        ])
    );
}

#[test]
fn help_names_every_verb() {
    let lines = print_help();
    for verb in ["play", "pause", "stop", "ls", "list", "whoami", "help", "man", "quit"] {
        assert_ne!(Command::new(verb.to_string()).command_type, CommandType::Unknown);
        assert!(lines.iter().any(|line| line.contains(verb)), "{}", verb);
        assert!(
            lines.iter().any(|line| line.starts_with(verb) || line.contains(&format!("/{}", verb))),
            "{}",
            verb
        );
    }
}

#[test]
fn help_is_the_same_at_every_call() {
    assert_eq!(print_help(), print_help());
    assert_eq!(dispatcher().help(), dispatcher().help());
    assert_eq!(print_help().len(), 9);
}

#[test]
fn unknown_says_huh() {
    assert_eq!(dispatcher().unknown(), huh());
}

#[test]
fn execute_dispatches_on_the_verb() {
    let invoker = dispatcher();
    assert_eq!(invoker.execute(Command::new("play playlist Works".to_string())), fetch(&[20]));
    assert_eq!(invoker.execute(Command::new("play".to_string())), huh());
    assert_eq!(invoker.execute(Command::new("play tape Road".to_string())), huh());
    assert_eq!(
        invoker.execute(Command::new("pause".to_string())),
        Reply { message: None, lines: Vec::new(), next: Next::Prompt }
    );
    assert_eq!(invoker.execute(Command::new("stop".to_string())), invoker.stop());
    assert_eq!(
        invoker.execute(Command::new("ls albums".to_string())),
        invoker.list(args(&["albums"]))
    );
    assert_eq!(invoker.execute(Command::new("list".to_string())), huh());
    assert_eq!(invoker.execute(Command::new("whoami".to_string())), invoker.whoami());
    assert_eq!(invoker.execute(Command::new("help".to_string())), invoker.help());
    assert_eq!(invoker.execute(Command::new("man".to_string())), invoker.help());
    assert_eq!(invoker.execute(Command::new("quit".to_string())), invoker.quit());
    assert_eq!(invoker.execute(Command::new("sing".to_string())), huh());
    assert_eq!(invoker.execute(Command::new(String::new())), huh());
}

#[test]
fn answer_passes_over_lines_without_words() {
    let invoker = dispatcher();
    assert_eq!(invoker.answer(String::new()), None);
    assert_eq!(invoker.answer("   \t".to_string()), None);
    assert_eq!(invoker.answer(" stop ".to_string()), Some(invoker.stop()));
    assert_eq!(invoker.answer("what".to_string()), Some(huh()));
    assert_eq!(invoker.answer("play album Kind".to_string()), Some(fetch(&[41, 42])));
}

#[test]
fn only_keys_that_are_known_stop_the_music() {
    let invoker = dispatcher();
    assert_eq!(invoker.key_pressed(KeyPress::Unknown), None);
    assert_eq!(invoker.key_pressed(KeyPress::UnknownEscSeq), None);
    assert_eq!(invoker.key_pressed(KeyPress::Recognized), Some(Message::StopPlaying));
    assert_eq!(invoker.key_pressed(KeyPress::Failed), Some(Message::StopPlaying));
}

#[test]
fn create_message_starts_the_first_track_and_queues_the_others() {
    assert_eq!(create_message(a_track(1), an_artist(1), true), Message::StartPlaying(data(1)));
    assert_eq!(create_message(a_track(2), an_artist(2), false), Message::AddToQueue(data(2)));
}

#[test]
fn first_artist_is_the_one_shown() {
    let track = Track {
        id: SpotifyId::track(1),
        name: "Duet".to_string(),
        artists: tracks(&[70, 71]),
    };
    assert_eq!(track.first_artist(), SpotifyId::track(70));
}

#[test]
fn fetch_task_sends_one_start_then_queues() {
    let sent = send_to_player(vec![
        Some((a_track(1), an_artist(1))),
        Some((a_track(2), an_artist(2))),
        Some((a_track(3), an_artist(3))),
    ]);
    assert_eq!(
        sent,
        vec![
            Message::StartPlaying(data(1)),
            Message::AddToQueue(data(2)),
            Message::AddToQueue(data(3)),
        ]
    );
}

#[test]
fn fetch_task_sends_nothing_for_a_track_it_could_not_look_up() {
    let sent = send_to_player(vec![
        Some((a_track(1), an_artist(1))),
        None,
        Some((a_track(3), an_artist(3))),
    ]);
    assert_eq!(sent, vec![Message::StartPlaying(data(1)), Message::AddToQueue(data(3))]);
    assert_eq!(send_to_player(vec![None, None]), Vec::new());
    assert_eq!(send_to_player(Vec::new()), Vec::new());
}

#[test]
fn only_the_first_track_of_a_collection_can_start() {
    let sent = send_to_player(vec![None, Some((a_track(2), an_artist(2)))]);
    assert_eq!(sent, vec![Message::AddToQueue(data(2))]);
}

#[test]
fn fetch_task_delivers_track_by_track() {
    let mut task = FetchTask::new();
    assert_eq!(
        task.deliver(Some((a_track(1), an_artist(1)))),
        Some(Message::StartPlaying(data(1)))
    );
    assert_eq!(task.deliver(None), None);
    assert_eq!(
        task.deliver(Some((a_track(2), an_artist(2)))),
        Some(Message::AddToQueue(data(2)))
    );
    let mut late = FetchTask::new();
    assert_eq!(late.deliver(None), None);
    assert_eq!(
        late.deliver(Some((a_track(5), an_artist(5)))),
        Some(Message::AddToQueue(data(5)))
    );
}

#[test]
fn road_trip_plays_from_the_first_track_to_the_last() {
    let fetcher = Fetcher::new(vec![a_playlist("Road Trip", &[1, 2, 3])], Vec::new());
    let invoker = Invoker::new("u".to_string(), fetcher);
    let reply = invoker.execute(Command::new("play playlist Road".to_string()));
    assert_eq!(reply.message, None);
    assert!(reply.lines.is_empty());
    let order = match reply.next {
        Next::Fetch { tracks } => tracks,
        other => panic!("unexpected {:?}", other),
    };
    assert_eq!(order, tracks(&[1, 2, 3]));

    let lookups = order.iter().map(|id| Some((a_track(id.id), an_artist(id.id)))).collect();
    let sent = send_to_player(lookups);
    assert_eq!(
        sent,
        vec![
            Message::StartPlaying(data(1)),
            Message::AddToQueue(data(2)),
            Message::AddToQueue(data(3)),
        ]
    );

    let mut player = Player::new();
    for message in sent {
        player.handle_message(message);
    }
    assert_eq!(player.state(), PlayerState::Playing);
    assert_eq!(player.current(), Some(&data(1)));
    assert_eq!(player.queue_len(), 2);

    player.handle_event(PlayerEvent::EndOfTrack);
    assert_eq!(player.current(), Some(&data(2)));
    assert_eq!(player.queue_len(), 1);
    player.handle_event(PlayerEvent::EndOfTrack);
    assert_eq!(player.current(), Some(&data(3)));
    assert_eq!(player.queue_len(), 0);
}
