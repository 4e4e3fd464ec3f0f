//! The command dispatcher: what each command prints, sends and starts.

use crate::command::{parsed_args, parsed_type, Command, CommandType};
use crate::fetch::{first_containing, names, Catalog, Fetcher, FetcherView};
use crate::interact::{farewell_text, help_lines, not_found_text, print_help, unknown_text};
use crate::play::{
    after_ends, after_messages, lemma_end_of_track_drains, messages_view, optional_message_view,
    Message, MessageView, PlayerView, TrackData, TrackDataView,
};
use crate::text::{
    has_words, join, join_from, parts_from, split_whitespace, str_eq, strings_view,
};
use crate::track::{Album, Artist, ArtistView, Playlist, SpotifyId, Track, TrackView};
use vstd::prelude::*;

verus! {

/// The two kinds of collection that can be played and listed.
#[derive(Clone, Copy, Debug, PartialEq, Eq, Structural)]
pub enum CollectionKind {
    Playlist,
    Album,
}

/// A named, ordered group of tracks.
pub trait TrackCollection {
    /// The tracks in the collection's own order.
    spec fn track_ids(&self) -> Seq<SpotifyId>;

    /// The collection's name.
    spec fn title(&self) -> Seq<char>;

    /// The tracks in the collection's own order.
    fn tracks(&self) -> (r: Vec<SpotifyId>)
        ensures
            r@ == self.track_ids(),
    ;

    /// The tracks in a random order, drawn anew at each call: as many
    /// tracks, and the same ones, each as often as the collection holds it.
    fn shuffled_tracks(&self) -> (r: Vec<SpotifyId>)
        ensures
            r@.to_multiset() == self.track_ids().to_multiset(),
            r@.len() == self.track_ids().len(),
    ;

    /// The collection's name.
    fn name(&self) -> (r: String)
        ensures
            r@ == self.title(),
    ;
}

/// A copy of `ids`.
fn copy_ids(ids: &Vec<SpotifyId>) -> (r: Vec<SpotifyId>)
    ensures
        r@ == ids@,
{
    let mut r: Vec<SpotifyId> = Vec::new();
    let mut i: usize = 0;
    while i < ids.len()
        invariant
            i <= ids.len(),
            r@ == ids@.take(i as int),
        decreases ids.len() - i,
    {
        r.push(ids[i]);
        assert(ids@.take(i + 1) == ids@.take(i as int).push(ids@[i as int]));
        i += 1;
    }
    assert(ids@.take(ids.len() as int) == ids@);
    r
}

/// Puts `ids` into a random order, with `rand::seq::SliceRandom::shuffle`
/// and the generator of `rand::thread_rng`. The shuffle does nothing but
/// swap elements of the slice, so afterwards `ids` holds the same
/// identifiers, each as often as before. Nothing is claimed of their order.
/// The generator is seeded by the system when it is first made, and again
/// from time to time as it is used; either fails where the system gives no
/// random numbers, which no argument of this function decides.
#[verifier::external_body]
fn shuffle(ids: &mut Vec<SpotifyId>)
    ensures
        final(ids)@.to_multiset() == old(ids)@.to_multiset(),
{
    rand::seq::SliceRandom::shuffle(ids.as_mut_slice(), &mut rand::thread_rng());
}

impl TrackCollection for Album {
    open spec fn track_ids(&self) -> Seq<SpotifyId> {
        self.tracks@
    }

    open spec fn title(&self) -> Seq<char> {
        self.name@
    }

    fn tracks(&self) -> (r: Vec<SpotifyId>) {
        copy_ids(&self.tracks)
    }

    fn shuffled_tracks(&self) -> (r: Vec<SpotifyId>) {
        let mut shuffled_tracks = copy_ids(&self.tracks);
        shuffle(&mut shuffled_tracks);
        proof {
            shuffled_tracks@.to_multiset_ensures();
            self.tracks@.to_multiset_ensures();
        }
        shuffled_tracks
    }

    fn name(&self) -> (r: String) {
        self.name.clone()
    }
}

impl TrackCollection for Playlist {
    open spec fn track_ids(&self) -> Seq<SpotifyId> {
        self.tracks@
    }

    open spec fn title(&self) -> Seq<char> {
        self.name@
    }

    fn tracks(&self) -> (r: Vec<SpotifyId>) {
        copy_ids(&self.tracks)
    }

    fn shuffled_tracks(&self) -> (r: Vec<SpotifyId>) {
        let mut shuffled_tracks = copy_ids(&self.tracks);
        shuffle(&mut shuffled_tracks);
        proof {
            shuffled_tracks@.to_multiset_ensures();
            self.tracks@.to_multiset_ensures();
        }
        shuffled_tracks
    }

    fn name(&self) -> (r: String) {
        self.name.clone()
    }
}

/// Whether `order` is a way to play `ids`: as they stand, or, where a shuffle
/// is asked for, in any order that holds each of them as often.
pub open spec fn is_play_order(ids: Seq<SpotifyId>, shuffle: bool, order: Seq<SpotifyId>) -> bool {
    if shuffle {
        order.to_multiset() == ids.to_multiset()
    } else {
        order == ids
    }
}

/// The order in which the tracks of `tc` are to be played.
pub fn play_track_collection<C: TrackCollection>(tc: &C, shuffle: bool) -> (tracks: Vec<SpotifyId>)
    ensures
        is_play_order(tc.track_ids(), shuffle, tracks@),
{
    if shuffle {
        tc.shuffled_tracks()
    } else {
        tc.tracks()
    }
}

/// The entry that a play command selects. A name that is not empty selects
/// the first entry, in catalog order, whose name has it as a substring. With
/// an empty name the user's pick decides: a position in the catalog, or
/// nothing where the user gave up.
pub open spec fn selected(names: Seq<Seq<char>>, name: Seq<char>, picked: Option<usize>) -> Option<
    int,
> {
    if name.len() > 0 {
        first_containing(names, name)
    } else {
        match picked {
            Some(i) => if i < names.len() {
                Some(i as int)
            } else {
                None
            },
            None => None,
        }
    }
}

/// Finds the collection to play: by `name` where it is not empty, else by
/// what the user picked.
pub fn select_track_collection<'a, C: TrackCollection>(
    catalog: &'a Catalog<C>,
    name: &str,
    picked: Option<usize>,
) -> (r: Option<&'a C>)
    ensures
        match selected(names(catalog@), name@, picked) {
            Some(i) => 0 <= i < catalog@.len() && r == Some(&catalog@[i].1),
            None => r is None,
        },
{
    let place = if !name.is_empty() {
        catalog.find_containing(name)
    } else {
        match picked {
            Some(i) => if i < catalog.len() {
                Some(i)
            } else {
                None
            },
            None => None,
        }
    };
    match place {
        Some(i) => catalog.item(i),
        None => None,
    }
}

/// What follows the dispatcher's answer to a command.
#[derive(Clone, Debug, PartialEq, Eq)]
pub enum Next {
    /// The next command is read.
    Prompt,
    /// The user picks one of the collections of this kind, by its position in
    /// the catalog, and `Invoker::play_selected` gets the pick.
    Choose { kind: CollectionKind, shuffle: bool },
    /// A fetch task looks these tracks up, in this order, and sends each to
    /// the player; meanwhile the dispatcher waits for a key.
    Fetch { tracks: Vec<SpotifyId> },
    /// The program ends.
    Exit,
}

/// A `Next` over plain values.
pub enum NextView {
    Prompt,
    Choose { kind: CollectionKind, shuffle: bool },
    Fetch { tracks: Seq<SpotifyId> },
    Exit,
}

impl View for Next {
    type V = NextView;

    open spec fn view(&self) -> NextView {
        match self {
            Next::Prompt => NextView::Prompt,
            Next::Choose { kind, shuffle } => NextView::Choose { kind: *kind, shuffle: *shuffle },
            Next::Fetch { tracks } => NextView::Fetch { tracks: tracks@ },
            Next::Exit => NextView::Exit,
        }
    }
}

/// The dispatcher's answer to one command. The caller sends `message` to the
/// player, if there is one, then prints `lines`, then does what `next` says.
#[derive(Clone, Debug, PartialEq, Eq)]
pub struct Reply {
    pub message: Option<Message>,
    pub lines: Vec<String>,
    pub next: Next,
}

/// A `Reply` over plain values.
pub struct ReplyView {
    pub message: Option<MessageView>,
    pub lines: Seq<Seq<char>>,
    pub next: NextView,
}

impl View for Reply {
    type V = ReplyView;

    open spec fn view(&self) -> ReplyView {
        ReplyView {
            message: optional_message_view(self.message),
            lines: strings_view(self.lines@),
            next: self.next@,
        }
    }
}

/// The answer that prints `lines` and sends nothing.
pub open spec fn says(lines: Seq<Seq<char>>) -> ReplyView {
    ReplyView { message: None, lines, next: NextView::Prompt }
}

/// The answer that sends `message` and prints nothing.
pub open spec fn sends(message: MessageView) -> ReplyView {
    ReplyView { message: Some(message), lines: Seq::empty(), next: NextView::Prompt }
}

/// The answer to what is not understood: one line, nothing sent.
pub open spec fn unknown_reply() -> ReplyView {
    says(seq![unknown_text()])
}

/// The answer where no collection is found: one line, nothing sent.
pub open spec fn not_found_reply() -> ReplyView {
    says(seq![not_found_text()])
}

/// The answer that has the user pick a collection.
pub open spec fn choose_reply(kind: CollectionKind, shuffle: bool) -> ReplyView {
    ReplyView { message: None, lines: Seq::empty(), next: NextView::Choose { kind, shuffle } }
}

/// The answer to `quit`: the player is told to quit, the farewell is
/// printed, and the program ends.
pub open spec fn quit_reply() -> ReplyView {
    ReplyView {
        message: Some(MessageView::Quit),
        lines: seq![farewell_text()],
        next: NextView::Exit,
    }
}

/// What a play command asks for.
#[derive(Clone, Debug, PartialEq, Eq)]
pub struct PlayRequest {
    pub kind: CollectionKind,
    pub shuffle: bool,
    pub name: String,
}

/// A `PlayRequest` over plain values.
pub struct PlayRequestView {
    pub kind: CollectionKind,
    pub shuffle: bool,
    pub name: Seq<char>,
}

impl View for PlayRequest {
    type V = PlayRequestView;

    open spec fn view(&self) -> PlayRequestView {
        PlayRequestView { kind: self.kind, shuffle: self.shuffle, name: self.name@ }
    }
}

/// The kind of collection that `word` names in a play command.
pub open spec fn play_kind(word: Seq<char>) -> Option<CollectionKind> {
    if word == "playlist"@ {
        Some(CollectionKind::Playlist)
    } else if word == "album"@ {
        Some(CollectionKind::Album)
    } else {
        None
    }
}

/// Whether the play arguments ask for a shuffle: the word `shuffle` right
/// behind the kind.
pub open spec fn asks_shuffle(args: Seq<Seq<char>>) -> bool {
    args.len() >= 2 && args[1] == "shuffle"@
}

/// What the arguments of a play command ask for. The first names the kind;
/// `shuffle` may follow; the words after that, joined by single spaces, are
/// the name to look for. Without a first argument, or with one that names no
/// kind, the command asks for nothing.
pub open spec fn play_request(args: Seq<Seq<char>>) -> Option<PlayRequestView> {
    if args.len() == 0 {
        None
    } else {
        match play_kind(args[0]) {
            Some(kind) => {
                let shuffle = asks_shuffle(args);
                let rest = parts_from(
                    args,
                    if shuffle {
                        2
                    } else {
                        1
                    },
                );
                Some(PlayRequestView { kind, shuffle, name: join(rest, " "@) })
            },
            None => None,
        }
    }
}

/// Reads the arguments of a play command.
pub fn parse_play_args(args: &Vec<String>) -> (r: Option<PlayRequest>)
    ensures
        match r {
            Some(request) => play_request(strings_view(args@)) == Some(request@),
            None => play_request(strings_view(args@)) is None,
        },
{
    if args.len() == 0 {
        return None;
    }
    let first_arg = args[0].as_str();
    let kind = if str_eq(first_arg, "playlist") {
        CollectionKind::Playlist
    } else if str_eq(first_arg, "album") {
        CollectionKind::Album
    } else {
        return None;
    };
    let shuffle = args.len() >= 2 && str_eq(args[1].as_str(), "shuffle");
    let name = if shuffle {
        join_from(args, 2, " ")
    } else {
        join_from(args, 1, " ")
    };
    Some(PlayRequest { kind, shuffle, name })
}

/// The kind of collection that the arguments of a list command name.
pub open spec fn list_kind(args: Seq<Seq<char>>) -> Option<CollectionKind> {
    if args.len() == 0 {
        None
    } else if args[0] == "playlist"@ || args[0] == "playlists"@ {
        Some(CollectionKind::Playlist)
    } else if args[0] == "album"@ || args[0] == "albums"@ {
        Some(CollectionKind::Album)
    } else {
        None
    }
}

/// The answer to a list command: every name of the catalog of that kind, in
/// catalog order; without a kind, the answer to what is not understood.
pub open spec fn list_reply(catalog: FetcherView, args: Seq<Seq<char>>) -> ReplyView {
    match list_kind(args) {
        Some(CollectionKind::Playlist) => says(names(catalog.playlists)),
        Some(CollectionKind::Album) => says(names(catalog.albums)),
        None => unknown_reply(),
    }
}

/// The tracks of the entry that `name` or the pick selects among `entries`.
pub open spec fn found_tracks<C: TrackCollection>(
    entries: Seq<(Seq<char>, C)>,
    name: Seq<char>,
    picked: Option<usize>,
) -> Option<Seq<SpotifyId>> {
    match selected(names(entries), name, picked) {
        Some(i) => Some(entries[i].1.track_ids()),
        None => None,
    }
}

/// The tracks of the collection of `kind` that `name` or the pick selects.
pub open spec fn found_in(
    catalog: FetcherView,
    kind: CollectionKind,
    name: Seq<char>,
    picked: Option<usize>,
) -> Option<Seq<SpotifyId>> {
    match kind {
        CollectionKind::Playlist => found_tracks(catalog.playlists, name, picked),
        CollectionKind::Album => found_tracks(catalog.albums, name, picked),
    }
}

/// Whether `reply` is a right answer once the collection was looked for.
/// Where none was found, it is the one line that says so. Where one was, the
/// answer prints and sends nothing and hands the collection's tracks to a
/// fetch task, in a play order.
pub open spec fn starts(found: Option<Seq<SpotifyId>>, shuffle: bool, reply: ReplyView) -> bool {
    match found {
        Some(ids) => {
            &&& reply.message is None
            &&& reply.lines.len() == 0
            &&& reply.next matches NextView::Fetch { tracks }
            &&& is_play_order(ids, shuffle, tracks)
        },
        None => reply == not_found_reply(),
    }
}

/// Whether `reply` is a right answer to a play command with these arguments.
/// Arguments that ask for nothing get the answer to what is not understood.
/// A request without a name has the user pick. Any other request looks the
/// name up in the catalog of its kind.
pub open spec fn play_allows(catalog: FetcherView, args: Seq<Seq<char>>, reply: ReplyView) -> bool {
    match play_request(args) {
        None => reply == unknown_reply(),
        Some(request) => if request.name.len() == 0 {
            reply == choose_reply(request.kind, request.shuffle)
        } else {
            starts(found_in(catalog, request.kind, request.name, None), request.shuffle, reply)
        },
    }
}

/// Whether `reply` is a right answer to this command for a user of this
/// name with this catalog.
pub open spec fn execute_allows(
    username: Seq<char>,
    catalog: FetcherView,
    command_type: CommandType,
    args: Seq<Seq<char>>,
    reply: ReplyView,
) -> bool {
    match command_type {
        CommandType::Play => play_allows(catalog, args, reply),
        CommandType::Pause => reply == says(Seq::empty()),
        CommandType::Stop => reply == sends(MessageView::StopPlaying),
        CommandType::List => reply == list_reply(catalog, args),
        CommandType::Whoami => reply == says(seq![username]),
        CommandType::Help => reply == says(help_lines()),
        CommandType::Quit => reply == quit_reply(),
        CommandType::Unknown => reply == unknown_reply(),
    }
}

/// No lines.
fn no_lines() -> (lines: Vec<String>)
    ensures
        strings_view(lines@) == Seq::<Seq<char>>::empty(),
{
    let lines: Vec<String> = Vec::new();
    assert(strings_view(lines@) =~= Seq::<Seq<char>>::empty());
    lines
}

/// The answer that prints `lines` and sends nothing.
fn say(lines: Vec<String>) -> (reply: Reply)
    ensures
        reply@ == says(strings_view(lines@)),
{
    Reply { message: None, lines, next: Next::Prompt }
}

/// The answer that prints the one line `text` and sends nothing.
fn say_line(text: &str) -> (reply: Reply)
    ensures
        reply@ == says(seq![text@]),
{
    let mut lines: Vec<String> = Vec::new();
    lines.push(text.to_owned());
    assert(strings_view(lines@) =~= seq![text@]);
    say(lines)
}

/// The answer once the collection was looked for.
fn start_collection<C: TrackCollection>(found: Option<&C>, shuffle: bool) -> (reply: Reply)
    ensures
        starts(
            match found {
                Some(tc) => Some(tc.track_ids()),
                None => None,
            },
            shuffle,
            reply@,
        ),
{
    match found {
        Some(tc) => {
            let tracks = play_track_collection(tc, shuffle);
            Reply { message: None, lines: no_lines(), next: Next::Fetch { tracks } }
        },
        None => say_line("Not found"),
    }
}

/// A key as the dispatcher sees it while music plays.
#[derive(Clone, Copy, Debug, PartialEq, Eq, Structural)]
pub enum KeyPress {
    /// A key that the terminal could not name.
    Unknown,
    /// An escape sequence that the terminal could not name.
    UnknownEscSeq,
    /// Any key that the terminal could name.
    Recognized,
    /// The key could not be read.
    Failed,
}

/// What a key makes the dispatcher send while music plays: nothing for a
/// key that the terminal cannot name, and a stop for any other, or for a
/// failure to read one.
pub open spec fn key_reply(key: KeyPress) -> Option<MessageView> {
    match key {
        KeyPress::Unknown => None,
        KeyPress::UnknownEscSeq => None,
        KeyPress::Recognized => Some(MessageView::StopPlaying),
        KeyPress::Failed => Some(MessageView::StopPlaying),
    }
}

/// The dispatcher: the user's name and catalog.
pub struct Invoker {
    username: String,
    fetcher: Fetcher,
}

/// What an `Invoker` holds, as plain values.
pub struct InvokerView {
    pub username: Seq<char>,
    pub catalog: FetcherView,
}

impl View for Invoker {
    type V = InvokerView;

    closed spec fn view(&self) -> InvokerView {
        InvokerView { username: self.username@, catalog: self.fetcher@ }
    }
}

impl Invoker {
    /// A dispatcher for the user `username` with the catalog of `fetcher`.
    pub fn new(username: String, fetcher: Fetcher) -> (invoker: Invoker)
        ensures
            invoker@ == (InvokerView { username: username@, catalog: fetcher@ }),
    {
        Invoker { username, fetcher }
    }

    /// Answers one command.
    pub fn execute(&self, command: Command) -> (reply: Reply)
        ensures
            execute_allows(
                self@.username,
                self@.catalog,
                command.command_type,
                strings_view(command.args@),
                reply@,
            ),
    {
        match command.command_type {
            CommandType::Play => self.play(command.args),
            CommandType::Pause => say(no_lines()),
            CommandType::Stop => self.stop(),
            CommandType::List => self.list(command.args),
            CommandType::Whoami => self.whoami(),
            CommandType::Help => self.help(),
            CommandType::Quit => self.quit(),
            CommandType::Unknown => self.unknown(),
        }
    }

    /// Answers one line of input: nothing for a line without words, and
    /// else the answer to the command that the line holds.
    pub fn answer(&self, input: String) -> (reply: Option<Reply>)
        ensures
            match reply {
                Some(r) => split_whitespace(input@).len() > 0 && execute_allows(
                    self@.username,
                    self@.catalog,
                    parsed_type(split_whitespace(input@)),
                    parsed_args(split_whitespace(input@)),
                    r@,
                ),
                None => split_whitespace(input@).len() == 0,
            },
    {
        if !has_words(input.as_str()) {
            return None;
        }
        Some(self.execute(Command::new(input)))
    }

    /// The names among which the user picks a collection of `kind`, in
    /// catalog order: a pick is a position in this list.
    pub fn choices(&self, kind: CollectionKind) -> (r: Vec<String>)
        ensures
            strings_view(r@) == match kind {
                CollectionKind::Playlist => names(self@.catalog.playlists),
                CollectionKind::Album => names(self@.catalog.albums),
            },
    {
        match kind {
            CollectionKind::Playlist => self.fetcher.playlists().keys(),
            CollectionKind::Album => self.fetcher.albums().keys(),
        }
    }

    /// Answers a play command. Without a first argument, or with one that is
    /// neither `playlist` nor `album`, the answer is the one line for what is
    /// not understood, and nothing is sent.
    pub fn play(&self, args: Vec<String>) -> (reply: Reply)
        ensures
            play_allows(self@.catalog, strings_view(args@), reply@),
            args@.len() == 0 || play_kind(args@[0]@) is None ==> reply@ == unknown_reply(),
    {
        let request = match parse_play_args(&args) {
            Some(request) => request,
            None => {
                return self.unknown();
            },
        };
        if request.name.as_str().is_empty() {
            return Reply {
                message: None,
                lines: no_lines(),
                next: Next::Choose { kind: request.kind, shuffle: request.shuffle },
            };
        }
        self.play_found(request.kind, request.shuffle, request.name.as_str(), None)
    }

    /// Goes on with a play command after the user was asked to pick a
    /// collection of `kind`: `picked` is its position in the catalog, or
    /// nothing where the user gave up, which counts as not found.
    pub fn play_selected(&self, kind: CollectionKind, shuffle: bool, picked: Option<usize>) -> (reply:
        Reply)
        ensures
            starts(found_in(self@.catalog, kind, Seq::empty(), picked), shuffle, reply@),
    {
        proof {
            reveal_strlit("");
            assert(""@ =~= Seq::<char>::empty());
        }
        self.play_found(kind, shuffle, "", picked)
    }

    /// Looks the collection up and answers.
    fn play_found(&self, kind: CollectionKind, shuffle: bool, name: &str, picked: Option<usize>) -> (reply:
        Reply)
        ensures
            starts(found_in(self@.catalog, kind, name@, picked), shuffle, reply@),
    {
        match kind {
            CollectionKind::Playlist => {
                let found = select_track_collection(self.fetcher.playlists(), name, picked);
                start_collection(found, shuffle)
            },
            CollectionKind::Album => {
                let found = select_track_collection(self.fetcher.albums(), name, picked);
                start_collection(found, shuffle)
            },
        }
    }

    /// What a key does while music plays: a key that the terminal cannot
    /// name is passed over, and any other, or a failure to read one, stops
    /// the music.
    pub fn key_pressed(&self, key: KeyPress) -> (r: Option<Message>)
        ensures
            optional_message_view(r) == key_reply(key),
    {
        match key {
            KeyPress::Unknown => None,
            KeyPress::UnknownEscSeq => None,
            _ => Some(Message::StopPlaying),
        }
    }

    /// Answers `stop`: the player is told to stop.
    pub fn stop(&self) -> (reply: Reply)
        ensures
            reply@ == sends(MessageView::StopPlaying),
    {
        Reply { message: Some(Message::StopPlaying), lines: no_lines(), next: Next::Prompt }
    }

    /// Answers a list command.
    pub fn list(&self, args: Vec<String>) -> (reply: Reply)
        ensures
            reply@ == list_reply(self@.catalog, strings_view(args@)),
    {
        if args.len() == 0 {
            return self.unknown();
        }
        let first_arg = args[0].as_str();
        if str_eq(first_arg, "playlist") || str_eq(first_arg, "playlists") {
            say(self.fetcher.playlists().keys())
        } else if str_eq(first_arg, "album") || str_eq(first_arg, "albums") {
            say(self.fetcher.albums().keys())
        } else {
            self.unknown()
        }
    }

    /// Answers `whoami`: the user's name.
    pub fn whoami(&self) -> (reply: Reply)
        ensures
            reply@ == says(seq![self@.username]),
    {
        say_line(self.username.as_str())
    }

    /// Answers `help`: the usage summary.
    pub fn help(&self) -> (reply: Reply)
        ensures
            reply@ == says(help_lines()),
    {
        say(print_help())
    }

    /// Answers `quit`.
    pub fn quit(&self) -> (reply: Reply)
        ensures
            reply@ == quit_reply(),
    {
        let mut lines: Vec<String> = Vec::new();
        lines.push("Come back soon!".to_owned());
        assert(strings_view(lines@) =~= seq![farewell_text()]);
        Reply { message: Some(Message::Quit), lines, next: Next::Exit }
    }

    /// Answers what is not understood.
    pub fn unknown(&self) -> (reply: Reply)
        ensures
            reply@ == unknown_reply(),
    {
        say_line("Huh?")
    }
}

/// The message that carries a track to the player: the first track of a
/// collection starts playing, every later one is queued.
pub open spec fn message_for(track: TrackView, artist: ArtistView, is_first_track: bool) -> MessageView {
    let data = TrackDataView { track, artist: artist.name };
    if is_first_track {
        MessageView::StartPlaying(data)
    } else {
        MessageView::AddToQueue(data)
    }
}

/// Makes the message that carries `track`, with the name of `artist`, to the
/// player.
pub fn create_message(track: Track, artist: Artist, is_first_track: bool) -> (message: Message)
    ensures
        message@ == message_for(track@, artist@, is_first_track),
{
    let track_data = TrackData { track, artist: artist.name };
    if is_first_track {
        Message::StartPlaying(track_data)
    } else {
        Message::AddToQueue(track_data)
    }
}

/// What a lookup of one track brought: the track and its first artist, or
/// nothing where either could not be had.
pub open spec fn lookup_view(lookup: Option<(Track, Artist)>) -> Option<(TrackView, ArtistView)> {
    match lookup {
        Some((track, artist)) => Some((track@, artist@)),
        None => None,
    }
}

/// The views of `lookups`, in order.
pub open spec fn lookups_view(lookups: Seq<Option<(Track, Artist)>>) -> Seq<
    Option<(TrackView, ArtistView)>,
> {
    Seq::new(lookups.len(), |i: int| lookup_view(lookups[i]))
}

/// The messages that a fetch task sends for a collection whose tracks, in
/// play order, brought `lookups`. A track that could not be looked up sends
/// nothing. Only the collection's first track can start playing: where its
/// lookup failed, all others are still queued.
pub open spec fn planned_messages(lookups: Seq<Option<(TrackView, ArtistView)>>) -> Seq<MessageView>
    decreases lookups.len(),
{
    if lookups.len() == 0 {
        Seq::empty()
    } else {
        let before = planned_messages(lookups.drop_last());
        match lookups.last() {
            Some((track, artist)) => before.push(message_for(track, artist, lookups.len() == 1)),
            None => before,
        }
    }
}

/// The sending state of one fetch task: whether the track to come is the
/// first of its collection.
pub struct FetchTask {
    is_first_track: bool,
}

impl FetchTask {
    /// Whether the next track is the collection's first.
    pub closed spec fn at_first_track(&self) -> bool {
        self.is_first_track
    }

    /// A task that has not looked up any track yet.
    pub fn new() -> (task: FetchTask)
        ensures
            task.at_first_track(),
    {
        FetchTask { is_first_track: true }
    }

    /// Takes what the lookup of the next track brought and gives the message
    /// to send, if any. After this the task is past its first track, whether
    /// or not the lookup brought one.
    pub fn deliver(&mut self, lookup: Option<(Track, Artist)>) -> (message: Option<Message>)
        ensures
            !final(self).at_first_track(),
            optional_message_view(message) == match lookup_view(lookup) {
                Some((track, artist)) => Some(
                    message_for(track, artist, old(self).at_first_track()),
                ),
                None => None,
            },
    {
        let is_first_track = self.is_first_track;
        self.is_first_track = false;
        match lookup {
            Some((track, artist)) => Some(create_message(track, artist, is_first_track)),
            None => None,
        }
    }
}

/// The messages for a whole collection, from what the lookup of each of its
/// tracks brought, in play order.
pub fn send_to_player(lookups: Vec<Option<(Track, Artist)>>) -> (sent: Vec<Message>)
    ensures
        messages_view(sent@) == planned_messages(lookups_view(lookups@)),
{
    let ghost all = lookups_view(lookups@);
    let ghost given = lookups@;
    let mut task = FetchTask::new();
    let mut sent: Vec<Message> = Vec::new();
    assert(messages_view(sent@) =~= planned_messages(all.take(0)));
    for lookup in it: lookups
        invariant
            it.seq() == given,
            all == lookups_view(given),
            task.at_first_track() == (it.index() == 0),
            messages_view(sent@) == planned_messages(all.take(it.index() as int)),
    {
        proof {
            let done = all.take(it.index() + 1);
            assert(done.drop_last() == all.take(it.index() as int));
            assert(done.last() == lookup_view(lookup));
        }
        let ghost before = messages_view(sent@);
        match task.deliver(lookup) {
            Some(message) => {
                sent.push(message);
                assert(messages_view(sent@) =~= before.push(message@));
            },
            None => {},
        }
    }
    assert(all.take(all.len() as int) == all);
    sent
}

/// A play command without a first argument, or with one that is neither
/// `playlist` nor `album`, gets the one line for what is not understood, and
/// no message is sent.
pub proof fn lemma_play_needs_kind(catalog: FetcherView, args: Seq<Seq<char>>, reply: ReplyView)
    requires
        play_allows(catalog, args, reply),
        args.len() == 0 || (args[0] != "playlist"@ && args[0] != "album"@),
    ensures
        reply.lines == seq![unknown_text()],
        reply.message is None,
        reply.next == NextView::Prompt,
{
}

/// The track that a lookup brought, as the player gets it.
pub open spec fn track_data(found: (TrackView, ArtistView)) -> TrackDataView {
    TrackDataView { track: found.0, artist: found.1.name }
}

/// The lookups of a collection of which every one brought its track.
pub open spec fn all_found(found: Seq<(TrackView, ArtistView)>) -> Seq<
    Option<(TrackView, ArtistView)>,
> {
    Seq::new(found.len(), |i: int| Some(found[i]))
}

/// Where every lookup brings its track, the fetch task sends one message for
/// each, in play order: `StartPlaying` for the first and `AddToQueue` for
/// every other.
pub proof fn lemma_planned_messages(found: Seq<(TrackView, ArtistView)>)
    ensures
        planned_messages(all_found(found)).len() == found.len(),
        forall|i: int|
            0 <= i < found.len() ==> #[trigger] planned_messages(all_found(found))[i] == (if i
                == 0 {
                MessageView::StartPlaying(track_data(found[i]))
            } else {
                MessageView::AddToQueue(track_data(found[i]))
            }),
    decreases found.len(),
{
    if found.len() > 0 {
        let before = found.drop_last();
        lemma_planned_messages(before);
        assert(all_found(found).drop_last() =~= all_found(before));
        assert(all_found(found).last() == Some(found.last()));
    }
}

/// The player's state after the first `k` messages for a collection of which
/// every lookup brought its track: the first track is loaded and the others
/// wait in play order.
proof fn lemma_after_planned(found: Seq<(TrackView, ArtistView)>, k: nat)
    requires
        1 <= k <= found.len(),
    ensures
        after_messages(PlayerView::initial(), planned_messages(all_found(found)).take(k as int))
            == (PlayerView {
            queue: Seq::new((k - 1) as nat, |i: int| track_data(found[i + 1])),
            current: Some(track_data(found[0])),
            finished: false,
        }),
    decreases k,
{
    let sent = planned_messages(all_found(found));
    lemma_planned_messages(found);
    let first = sent.take(k as int);
    assert(first.drop_last() =~= sent.take(k - 1));
    assert(first.last() == sent[k - 1]);
    if k == 1 {
        assert(sent.take(0).len() == 0);
        assert(Seq::new(0nat, |i: int| track_data(found[i + 1])) =~= Seq::<TrackDataView>::empty());
    } else {
        lemma_after_planned(found, (k - 1) as nat);
        assert(Seq::new((k - 2) as nat, |i: int| track_data(found[i + 1])).push(
            track_data(found[k - 1]),
        ) =~= Seq::new((k - 1) as nat, |i: int| track_data(found[i + 1])));
    }
}

/// A collection plays in its play order, from the first track to the last.
/// Where every lookup brought its track and a fresh player took the fetch
/// task's messages, then after `n` ends of track, `n` less than the number of
/// tracks, track number `n`, counted from 0, is loaded and those behind it
/// wait, in order.
pub proof fn lemma_collection_plays_in_order(found: Seq<(TrackView, ArtistView)>, n: nat)
    requires
        n < found.len(),
    ensures
        ({
            let sent = planned_messages(all_found(found));
            let state = after_ends(after_messages(PlayerView::initial(), sent), n);
            &&& state.current == Some(track_data(found[n as int]))
            &&& state.queue == Seq::new(
                (found.len() - n - 1) as nat,
                |i: int| track_data(found[n + 1 + i]),
            )
            &&& !state.finished
        }),
{
    let sent = planned_messages(all_found(found));
    lemma_planned_messages(found);
    lemma_after_planned(found, found.len());
    assert(sent.take(found.len() as int) =~= sent);
    let started = after_messages(PlayerView::initial(), sent);
    if n > 0 {
        lemma_end_of_track_drains(started, n);
        assert(started.queue.skip(n as int) =~= Seq::new(
            (found.len() - n - 1) as nat,
            |i: int| track_data(found[n + 1 + i]),
        ));
    } else {
        assert(started.queue =~= Seq::new(
            (found.len() - 1) as nat,
            |i: int| track_data(found[1 + i]),
        ));
    }
}

} // verus!
