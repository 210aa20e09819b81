//! Station records, the station list, and the store that keeps the list in a
//! file under the user's configuration directory.
//!
//! Reading and writing the file is the caller's work. This module says where
//! the file lies, which step of loading or saving comes next, and which error
//! each failure becomes.

use vstd::prelude::*;
use vstd::string::StrSliceExecFns;
use vstd::string::StringExecFns;

verus! {

/// One radio station.
#[derive(Debug)]
pub struct Channel {
    pub id: String,
    pub name: String,
    pub uri: String,
    pub favourite: bool,
}

/// A station as plain text and a flag.
pub struct ChannelView {
    pub id: Seq<char>,
    pub name: Seq<char>,
    pub uri: Seq<char>,
    pub favourite: bool,
}

impl View for Channel {
    type V = ChannelView;

    open spec fn view(&self) -> ChannelView {
        ChannelView { id: self.id@, name: self.name@, uri: self.uri@, favourite: self.favourite }
    }
}

impl Clone for Channel {
    fn clone(&self) -> (copy: Self)
        ensures
            copy == *self,
    {
        Channel {
            id: self.id.clone(),
            name: self.name.clone(),
            uri: self.uri.clone(),
            favourite: self.favourite,
        }
    }
}

/// The stations of `list`, each as plain text, in the same order.
pub open spec fn channel_views(list: Seq<Channel>) -> Seq<ChannelView> {
    Seq::new(list.len(), |i: int| list[i]@)
}

/// Copies a list of stations.
pub fn clone_channels(list: &Vec<Channel>) -> (copy: Vec<Channel>)
    ensures
        copy@ == list@,
{
    let mut copy: Vec<Channel> = Vec::new();
    let mut i: usize = 0;
    while i < list.len()
        invariant
            i <= list.len(),
            copy@ == list@.subrange(0, i as int),
        decreases list.len() - i,
    {
        copy.push(list[i].clone());
        i = i + 1;
    }
    copy
}

/// The ordered list of stations; the order is the order of display.
#[derive(Debug)]
pub struct ChannelList {
    pub channels: Vec<Channel>,
}

impl View for ChannelList {
    type V = Seq<ChannelView>;

    open spec fn view(&self) -> Seq<ChannelView> {
        channel_views(self.channels@)
    }
}

impl Clone for ChannelList {
    fn clone(&self) -> (copy: Self)
        ensures
            copy.channels@ == self.channels@,
    {
        ChannelList { channels: clone_channels(&self.channels) }
    }
}

impl Default for ChannelList {
    fn default() -> (list: Self)
        ensures
            list.channels@.len() == 0,
    {
        ChannelList { channels: Vec::new() }
    }
}

/// Why the store could not load or save the list. Each variant carries the
/// underlying failure as text.
#[derive(Debug)]
pub enum ChannelError {
    /// The file or its directory could not be read, created or written.
    ReadError(String),
    /// The file's content is not a station list.
    ParseError(String),
    /// The list could not be put into the file's format.
    SerializeError(String),
}

/// A store error as plain text.
pub enum ChannelErrorView {
    ReadError(Seq<char>),
    ParseError(Seq<char>),
    SerializeError(Seq<char>),
}

impl ChannelErrorView {
    /// The text shown for the error: what failed, then the underlying failure.
    pub open spec fn message(self) -> Seq<char> {
        match self {
            ChannelErrorView::ReadError(detail) => "Failed to read config file: "@ + detail,
            ChannelErrorView::ParseError(detail) => "Failed to parse TOML: "@ + detail,
            ChannelErrorView::SerializeError(detail) => "Failed to serialize TOML: "@ + detail,
        }
    }
}

impl View for ChannelError {
    type V = ChannelErrorView;

    open spec fn view(&self) -> ChannelErrorView {
        match self {
            ChannelError::ReadError(detail) => ChannelErrorView::ReadError(detail@),
            ChannelError::ParseError(detail) => ChannelErrorView::ParseError(detail@),
            ChannelError::SerializeError(detail) => ChannelErrorView::SerializeError(detail@),
        }
    }
}

impl Clone for ChannelError {
    fn clone(&self) -> (copy: Self)
        ensures
            copy == *self,
    {
        match self {
            ChannelError::ReadError(detail) => ChannelError::ReadError(detail.clone()),
            ChannelError::ParseError(detail) => ChannelError::ParseError(detail.clone()),
            ChannelError::SerializeError(detail) => ChannelError::SerializeError(detail.clone()),
        }
    }
}

impl ChannelError {
    /// The text shown for the error.
    pub fn message(&self) -> (text: String)
        ensures
            text@ == self@.message(),
    {
        match self {
            ChannelError::ReadError(detail) => String::from_str(
                "Failed to read config file: ",
            ).concat(detail.as_str()),
            ChannelError::ParseError(detail) => String::from_str("Failed to parse TOML: ").concat(
                detail.as_str(),
            ),
            ChannelError::SerializeError(detail) => String::from_str(
                "Failed to serialize TOML: ",
            ).concat(detail.as_str()),
        }
    }
}

/// `base` followed by `leaf`, with one `/` between them unless `base` is empty
/// or already ends in one.
pub open spec fn joined(base: Seq<char>, leaf: Seq<char>) -> Seq<char> {
    if base.len() == 0 {
        leaf
    } else if base.last() == '/' {
        base + leaf
    } else {
        base + seq!['/'] + leaf
    }
}

/// The applet's configuration directory below `root`, the user's
/// configuration directory; below the current directory where there is none.
pub open spec fn config_dir_under(root: Option<Seq<char>>) -> Seq<char> {
    joined(
        match root {
            Some(dir) => dir,
            None => "."@,
        },
        "cosmic-internet-radio-applet"@,
    )
}

/// The station file below `root`.
pub open spec fn channels_file_under(root: Option<Seq<char>>) -> Seq<char> {
    joined(config_dir_under(root), "channels.toml"@)
}

/// Whether `path` is the station file below some configuration directory.
pub open spec fn is_channels_file_path(path: Seq<char>) -> bool {
    exists|root: Option<Seq<char>>| path == #[trigger] channels_file_under(root)
}

/// The text of an optional string.
pub open spec fn text_of(value: Option<String>) -> Option<Seq<char>> {
    match value {
        Some(text) => Some(text@),
        None => None,
    }
}

/// `dirs::config_dir` of the crate `dirs`: the user's configuration directory,
/// as text. Trusted; which directory comes back depends on the platform and
/// the environment, so nothing is claimed of the result. A directory name
/// that is not valid UTF-8 comes back with replacement characters.
#[verifier::external_body]
fn platform_config_dir() -> (root: Option<String>) {
    dirs::config_dir().map(|dir| dir.to_string_lossy().into_owned())
}

/// Joins two path components.
pub fn join_path(base: &str, leaf: &str) -> (path: String)
    ensures
        path@ == joined(base@, leaf@),
{
    let n = base.unicode_len();
    if n == 0 {
        String::from_str(leaf)
    } else if base.get_char(n - 1) == '/' {
        String::from_str(base).concat(leaf)
    } else {
        proof {
            reveal_strlit("/");
            assert("/"@ == seq!['/']);
        }
        String::from_str(base).concat("/").concat(leaf)
    }
}

/// The applet's configuration directory below `root`.
pub fn config_dir_in(root: Option<String>) -> (dir: String)
    ensures
        dir@ == config_dir_under(text_of(root)),
{
    match root {
        Some(base) => join_path(base.as_str(), "cosmic-internet-radio-applet"),
        None => join_path(".", "cosmic-internet-radio-applet"),
    }
}

/// The station file below `root`.
pub fn channels_file_path_in(root: Option<String>) -> (path: String)
    ensures
        path@ == channels_file_under(text_of(root)),
{
    let dir = config_dir_in(root);
    join_path(dir.as_str(), "channels.toml")
}

/// The applet's configuration directory on this machine.
pub fn config_dir() -> (dir: String)
    ensures
        exists|root: Option<Seq<char>>| dir@ == #[trigger] config_dir_under(root),
{
    let root = platform_config_dir();
    let dir = config_dir_in(root);
    assert(dir@ == config_dir_under(text_of(root)));
    dir
}

/// The station file on this machine.
pub fn channels_file_path() -> (path: String)
    ensures
        is_channels_file_path(path@),
{
    let root = platform_config_dir();
    let path = channels_file_path_in(root);
    assert(path@ == channels_file_under(text_of(root)));
    path
}

/// The station file on this machine, for messages to the user.
pub fn get_channels_file_path() -> (path: String)
    ensures
        is_channels_file_path(path@),
{
    channels_file_path()
}


/// The default stations: those of the bundled template, or none where the
/// template could not be understood.
pub fn default_channels(template: Option<ChannelList>) -> (list: ChannelList)
    ensures
        list@ == match template {
            Some(stations) => stations@,
            None => Seq::empty(),
        },
{
    match template {
        Some(stations) => stations,
        None => {
            let list = ChannelList::default();
            assert(list@ =~= Seq::empty());
            list
        },
    }
}

/// What the caller reports while the list is loaded.
#[derive(Debug)]
pub enum LoadEvent {
    /// Whether the station file exists.
    FileChecked { exists: bool },
    /// The default stations were written, or could not be.
    DefaultsSaved(Result<(), ChannelError>),
    /// The file's content, or why it could not be read.
    FileRead(Result<String, String>),
    /// The stations in the content, or why it is no station list.
    Parsed(Result<ChannelList, String>),
}

/// What the caller does next while the list is loaded.
#[derive(Debug)]
pub enum LoadStep {
    /// Save these stations and report `DefaultsSaved`.
    SaveDefaults(ChannelList),
    /// Read the station file and report `FileRead`.
    ReadFile,
    /// Parse this content and report `Parsed`.
    Parse(String),
    /// Loading is over, with this outcome.
    Done(Result<ChannelList, ChannelError>),
}

/// A load event as plain values.
pub enum LoadEventView {
    FileChecked { exists: bool },
    DefaultsSaved(Result<(), ChannelErrorView>),
    FileRead(Result<Seq<char>, Seq<char>>),
    Parsed(Result<Seq<ChannelView>, Seq<char>>),
}

/// A load step as plain values.
#[verifier::ext_equal]
pub enum LoadStepView {
    SaveDefaults(Seq<ChannelView>),
    ReadFile,
    Parse(Seq<char>),
    Done(Result<Seq<ChannelView>, ChannelErrorView>),
}

impl View for LoadEvent {
    type V = LoadEventView;

    open spec fn view(&self) -> LoadEventView {
        match self {
            LoadEvent::FileChecked { exists } => LoadEventView::FileChecked { exists: *exists },
            LoadEvent::DefaultsSaved(Ok(_)) => LoadEventView::DefaultsSaved(Ok(())),
            LoadEvent::DefaultsSaved(Err(reason)) => LoadEventView::DefaultsSaved(Err(reason@)),
            LoadEvent::FileRead(Ok(content)) => LoadEventView::FileRead(Ok(content@)),
            LoadEvent::FileRead(Err(detail)) => LoadEventView::FileRead(Err(detail@)),
            LoadEvent::Parsed(Ok(list)) => LoadEventView::Parsed(Ok(list@)),
            LoadEvent::Parsed(Err(detail)) => LoadEventView::Parsed(Err(detail@)),
        }
    }
}

impl View for LoadStep {
    type V = LoadStepView;

    open spec fn view(&self) -> LoadStepView {
        match self {
            LoadStep::SaveDefaults(list) => LoadStepView::SaveDefaults(list@),
            LoadStep::ReadFile => LoadStepView::ReadFile,
            LoadStep::Parse(content) => LoadStepView::Parse(content@),
            LoadStep::Done(Ok(list)) => LoadStepView::Done(Ok(list@)),
            LoadStep::Done(Err(reason)) => LoadStepView::Done(Err(reason@)),
        }
    }
}

/// The step that follows an event while the list is loaded.
///
/// Without a file the default stations are saved, and they are the result if
/// that succeeds; the failure to save them is the result otherwise. With a
/// file, its content is read and parsed; a failure to read is a `ReadError`,
/// a failure to parse a `ParseError`.
pub open spec fn load_step(defaults: Seq<ChannelView>, event: LoadEventView) -> LoadStepView {
    match event {
        LoadEventView::FileChecked { exists } => if exists {
            LoadStepView::ReadFile
        } else {
            LoadStepView::SaveDefaults(defaults)
        },
        LoadEventView::DefaultsSaved(Ok(_)) => LoadStepView::Done(Ok(defaults)),
        LoadEventView::DefaultsSaved(Err(reason)) => LoadStepView::Done(Err(reason)),
        LoadEventView::FileRead(Ok(content)) => LoadStepView::Parse(content),
        LoadEventView::FileRead(Err(detail)) => LoadStepView::Done(
            Err(ChannelErrorView::ReadError(detail)),
        ),
        LoadEventView::Parsed(Ok(list)) => LoadStepView::Done(Ok(list)),
        LoadEventView::Parsed(Err(detail)) => LoadStepView::Done(
            Err(ChannelErrorView::ParseError(detail)),
        ),
    }
}

/// Loads the list, one step at a time. The caller begins by reporting
/// whether the station file exists, carries out each step and reports its
/// outcome, until the step is `Done`.
pub fn load_channels(defaults: &ChannelList, event: LoadEvent) -> (step: LoadStep)
    ensures
        step@ == load_step(defaults@, event@),
{
    match event {
        LoadEvent::FileChecked { exists } => {
            if exists {
                LoadStep::ReadFile
            } else {
                LoadStep::SaveDefaults(defaults.clone())
            }
        },
        LoadEvent::DefaultsSaved(Ok(_)) => LoadStep::Done(Ok(defaults.clone())),
        LoadEvent::DefaultsSaved(Err(reason)) => LoadStep::Done(Err(reason)),
        LoadEvent::FileRead(Ok(content)) => LoadStep::Parse(content),
        LoadEvent::FileRead(Err(detail)) => LoadStep::Done(Err(ChannelError::ReadError(detail))),
        LoadEvent::Parsed(Ok(list)) => LoadStep::Done(Ok(list)),
        LoadEvent::Parsed(Err(detail)) => LoadStep::Done(Err(ChannelError::ParseError(detail))),
    }
}

/// What the caller reports while the list is saved.
#[derive(Debug)]
pub enum SaveEvent {
    /// Whether the configuration directory exists.
    DirChecked { exists: bool },
    /// The directory was created, or why it could not be.
    DirCreated(Result<(), String>),
    /// The list in the file's format, or why it could not be put into it.
    Serialized(Result<String, String>),
    /// The file was written, or why it could not be.
    Written(Result<(), String>),
}

/// What the caller does next while the list is saved.
#[derive(Debug)]
pub enum SaveStep {
    /// Create the configuration directory and report `DirCreated`.
    CreateDir,
    /// Put the list into the file's format and report `Serialized`.
    Serialize,
    /// Replace the file's content with this text and report `Written`.
    Write(String),
    /// Saving is over, with this outcome.
    Done(Result<(), ChannelError>),
}

/// A save event as plain values.
pub enum SaveEventView {
    DirChecked { exists: bool },
    DirCreated(Result<(), Seq<char>>),
    Serialized(Result<Seq<char>, Seq<char>>),
    Written(Result<(), Seq<char>>),
}

/// A save step as plain values.
pub enum SaveStepView {
    CreateDir,
    Serialize,
    Write(Seq<char>),
    Done(Result<(), ChannelErrorView>),
}

impl View for SaveEvent {
    type V = SaveEventView;

    open spec fn view(&self) -> SaveEventView {
        match self {
            SaveEvent::DirChecked { exists } => SaveEventView::DirChecked { exists: *exists },
            SaveEvent::DirCreated(Ok(_)) => SaveEventView::DirCreated(Ok(())),
            SaveEvent::DirCreated(Err(detail)) => SaveEventView::DirCreated(Err(detail@)),
            SaveEvent::Serialized(Ok(content)) => SaveEventView::Serialized(Ok(content@)),
            SaveEvent::Serialized(Err(detail)) => SaveEventView::Serialized(Err(detail@)),
            SaveEvent::Written(Ok(_)) => SaveEventView::Written(Ok(())),
            SaveEvent::Written(Err(detail)) => SaveEventView::Written(Err(detail@)),
        }
    }
}

impl View for SaveStep {
    type V = SaveStepView;

    open spec fn view(&self) -> SaveStepView {
        match self {
            SaveStep::CreateDir => SaveStepView::CreateDir,
            SaveStep::Serialize => SaveStepView::Serialize,
            SaveStep::Write(content) => SaveStepView::Write(content@),
            SaveStep::Done(Ok(_)) => SaveStepView::Done(Ok(())),
            SaveStep::Done(Err(reason)) => SaveStepView::Done(Err(reason@)),
        }
    }
}

/// The step that follows an event while the list is saved.
///
/// The directory is created where it is missing, the list is put into the
/// file's format, and the file is written in full. A failure to create the
/// directory or to write the file is a `ReadError`, a failure to put the list
/// into the format a `SerializeError`.
pub open spec fn save_step(event: SaveEventView) -> SaveStepView {
    match event {
        SaveEventView::DirChecked { exists } => if exists {
            SaveStepView::Serialize
        } else {
            SaveStepView::CreateDir
        },
        SaveEventView::DirCreated(Ok(_)) => SaveStepView::Serialize,
        SaveEventView::DirCreated(Err(detail)) => SaveStepView::Done(
            Err(ChannelErrorView::ReadError(detail)),
        ),
        SaveEventView::Serialized(Ok(content)) => SaveStepView::Write(content),
        SaveEventView::Serialized(Err(detail)) => SaveStepView::Done(
            Err(ChannelErrorView::SerializeError(detail)),
        ),
        SaveEventView::Written(Ok(_)) => SaveStepView::Done(Ok(())),
        SaveEventView::Written(Err(detail)) => SaveStepView::Done(
            Err(ChannelErrorView::ReadError(detail)),
        ),
    }
}

/// Saves the list, one step at a time. The caller begins by reporting
/// whether the configuration directory exists, carries out each step and
/// reports its outcome, until the step is `Done`.
pub fn save_channels(event: SaveEvent) -> (step: SaveStep)
    ensures
        step@ == save_step(event@),
{
    match event {
        SaveEvent::DirChecked { exists } => {
            if exists {
                SaveStep::Serialize
            } else {
                SaveStep::CreateDir
            }
        },
        SaveEvent::DirCreated(Ok(_)) => SaveStep::Serialize,
        SaveEvent::DirCreated(Err(detail)) => SaveStep::Done(Err(ChannelError::ReadError(detail))),
        SaveEvent::Serialized(Ok(content)) => SaveStep::Write(content),
        SaveEvent::Serialized(Err(detail)) => SaveStep::Done(
            Err(ChannelError::SerializeError(detail)),
        ),
        SaveEvent::Written(Ok(_)) => SaveStep::Done(Ok(())),
        SaveEvent::Written(Err(detail)) => SaveStep::Done(Err(ChannelError::ReadError(detail))),
    }
}

/// On the first run, when there is no station file, the default stations are
/// saved and returned. They are saved once: no other event asks for it.
pub proof fn lemma_first_run_saves_defaults_once(defaults: Seq<ChannelView>, event: LoadEventView)
    ensures
        load_step(defaults, LoadEventView::FileChecked { exists: false })
            == LoadStepView::SaveDefaults(defaults),
        load_step(defaults, LoadEventView::DefaultsSaved(Ok(()))) == LoadStepView::Done(
            Ok(defaults),
        ),
        load_step(defaults, event) is SaveDefaults <==> event == (LoadEventView::FileChecked {
            exists: false,
        }),
{
}

} // verus!
