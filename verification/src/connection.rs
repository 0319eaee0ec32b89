//! The connection settings and the resolution of their credentials.

use crate::credentials::{credentials_in_file, Credentials, CredentialsView};
use crate::document::{entry, lookup, parse_table, table_entries, toml_document, Item};
use crate::endpoint::{endpoint, is_url, url_serialization};
use crate::error::{gives, key_name, DocumentError, Fault, Key, LoadError, LoadFault};
use crate::field::{optional_text, refresh, text_of};
use crate::text::has_byte_order_mark;
use vstd::prelude::*;
use vstd::utf8::*;

verus! {

/// Seconds between two polls where the settings name no cadence.
pub const DEFAULT_REFRESH: u64 = 5;

/// The cadence that an omitted refresh field stands for.
pub fn default_refresh() -> (seconds: u64)
    ensures
        seconds == DEFAULT_REFRESH,
{
    DEFAULT_REFRESH
}

/// How a client reaches the service.
#[derive(Debug, Clone, PartialEq, Eq)]
pub struct Connection {
    /// The user name, where the settings hold one or a file gave one.
    pub username: Option<String>,
    /// The password, where the settings hold one or a file gave one.
    pub password: Option<String>,
    /// The path of a credentials file, as the settings name it.
    pub credentials_file: Option<String>,
    /// The address of the service: the serialization of an absolute URL.
    pub url: String,
    /// Seconds between two polls of the torrents.
    pub torrents_refresh: u64,
    /// Seconds between two polls of the statistics.
    pub stats_refresh: u64,
    /// Seconds between two polls of the free space.
    pub free_space_refresh: u64,
}

/// The settings with each text as its characters.
pub struct ConnectionView {
    pub username: Option<Seq<char>>,
    pub password: Option<Seq<char>>,
    pub credentials_file: Option<Seq<char>>,
    pub url: Seq<char>,
    pub torrents_refresh: u64,
    pub stats_refresh: u64,
    pub free_space_refresh: u64,
}

impl View for Connection {
    type V = ConnectionView;

    open spec fn view(&self) -> ConnectionView {
        ConnectionView {
            username: text_of(self.username),
            password: text_of(self.password),
            credentials_file: text_of(self.credentials_file),
            url: self.url@,
            torrents_refresh: self.torrents_refresh,
            stats_refresh: self.stats_refresh,
            free_space_refresh: self.free_space_refresh,
        }
    }
}

impl ConnectionView {
    /// The settings name a credentials file and hold a user name or a password
    /// of their own.
    pub open spec fn has_both_sources(self) -> bool {
        self.credentials_file is Some && (self.username is Some || self.password is Some)
    }

    /// The settings with the credentials that a file gave.
    pub open spec fn with_credentials(self, credentials: CredentialsView) -> ConnectionView {
        ConnectionView {
            username: Some(credentials.username),
            password: Some(credentials.password),
            ..self
        }
    }
}

/// The settings that a table stands for. The keys are read in the order of the
/// fields, and the first fault is the one reported; keys that the settings do
/// not know are passed over.
pub open spec fn connection_of(entries: Map<Seq<char>, Item>) -> Result<ConnectionView, Fault> {
    let username = optional_text(entry(entries, key_name(Key::Username)), Key::Username);
    let password = optional_text(entry(entries, key_name(Key::Password)), Key::Password);
    let credentials_file = optional_text(
        entry(entries, key_name(Key::CredentialsFile)),
        Key::CredentialsFile,
    );
    let url = endpoint(entry(entries, key_name(Key::Url)));
    let torrents_refresh = refresh(
        entry(entries, key_name(Key::TorrentsRefresh)),
        Key::TorrentsRefresh,
    );
    let stats_refresh = refresh(entry(entries, key_name(Key::StatsRefresh)), Key::StatsRefresh);
    let free_space_refresh = refresh(
        entry(entries, key_name(Key::FreeSpaceRefresh)),
        Key::FreeSpaceRefresh,
    );
    if username is Err {
        Err(username->Err_0)
    } else if password is Err {
        Err(password->Err_0)
    } else if credentials_file is Err {
        Err(credentials_file->Err_0)
    } else if url is Err {
        Err(url->Err_0)
    } else if torrents_refresh is Err {
        Err(torrents_refresh->Err_0)
    } else if stats_refresh is Err {
        Err(stats_refresh->Err_0)
    } else if free_space_refresh is Err {
        Err(free_space_refresh->Err_0)
    } else {
        Ok(
            ConnectionView {
                username: username->Ok_0,
                password: password->Ok_0,
                credentials_file: credentials_file->Ok_0,
                url: url->Ok_0,
                torrents_refresh: torrents_refresh->Ok_0,
                stats_refresh: stats_refresh->Ok_0,
                free_space_refresh: free_space_refresh->Ok_0,
            },
        )
    }
}

/// The settings that a text stands for.
pub open spec fn connection_in_text(text: Seq<char>) -> Result<ConnectionView, Fault> {
    match toml_document(text) {
        None => Err(Fault::Syntax),
        Some(entries) => connection_of(entries),
    }
}

/// What the file system holds at the path of the credentials file.
#[derive(Debug, Clone, PartialEq, Eq)]
pub enum FileState {
    /// Nothing is at the path.
    Missing,
    /// The file is there and could not be read; the reader's report.
    Unreadable(String),
    /// The bytes of the file.
    Contents(Vec<u8>),
}

/// What resolving the credentials comes to: the settings afterwards, or the
/// reason why they stay as they are.
pub open spec fn load_outcome(settings: ConnectionView, file: FileState) -> Result<
    ConnectionView,
    LoadFault,
> {
    if settings.has_both_sources() {
        Err(LoadFault::ExclusiveSources)
    } else {
        match settings.credentials_file {
            None => Ok(settings),
            Some(path) => match file {
                FileState::Missing => Err(LoadFault::FileMissing(path)),
                FileState::Unreadable(report) => Err(LoadFault::FileRead(report@)),
                FileState::Contents(bytes) => match credentials_in_file(bytes@) {
                    Err(fault) => Err(LoadFault::FileParse(fault)),
                    Ok(credentials) => Ok(settings.with_credentials(credentials)),
                },
            },
        }
    }
}

/// Settings that name no credentials file resolve to themselves, whatever is
/// said of any file.
pub proof fn lemma_without_file_nothing_changes(settings: ConnectionView, file: FileState)
    requires
        settings.credentials_file is None,
    ensures
        load_outcome(settings, file) == Ok::<ConnectionView, LoadFault>(settings),
{
}

/// Settings that name a credentials file beside a user name or a password of
/// their own are refused, whatever the file holds.
pub proof fn lemma_both_sources_are_refused(settings: ConnectionView, file: FileState)
    requires
        settings.credentials_file is Some,
        settings.username is Some || settings.password is Some,
    ensures
        load_outcome(settings, file) == Err::<ConnectionView, LoadFault>(
            LoadFault::ExclusiveSources,
        ),
{
}

/// Where the file stands for a user name and a password and the resolution
/// succeeds, the settings hold that user name and that password afterwards,
/// and are otherwise as before.
pub proof fn lemma_file_credentials_are_taken(
    settings: ConnectionView,
    bytes: Vec<u8>,
    credentials: CredentialsView,
)
    requires
        settings.credentials_file is Some,
        credentials_in_file(bytes@) == Ok::<CredentialsView, Fault>(credentials),
        load_outcome(settings, FileState::Contents(bytes)) is Ok,
    ensures
        load_outcome(settings, FileState::Contents(bytes))->Ok_0.username == Some(
            credentials.username,
        ),
        load_outcome(settings, FileState::Contents(bytes))->Ok_0.password == Some(
            credentials.password,
        ),
        load_outcome(settings, FileState::Contents(bytes))->Ok_0 == settings.with_credentials(
            credentials,
        ),
{
}

/// Resolution is for once: settings whose credentials came from a file are
/// refused when they are resolved again, whatever the file holds by then.
pub proof fn lemma_resolution_is_single_shot(
    settings: ConnectionView,
    first: FileState,
    second: FileState,
)
    requires
        settings.credentials_file is Some,
        load_outcome(settings, first) is Ok,
    ensures
        load_outcome(load_outcome(settings, first)->Ok_0, second) == Err::<
            ConnectionView,
            LoadFault,
        >(LoadFault::ExclusiveSources),
{
}

/// A credentials file that lacks the user name or the password fails to
/// parse.
pub proof fn lemma_lone_field_fails_to_parse(
    settings: ConnectionView,
    bytes: Vec<u8>,
    entries: Map<Seq<char>, Item>,
)
    requires
        settings.credentials_file is Some,
        !settings.has_both_sources(),
        !has_byte_order_mark(bytes@),
        valid_utf8(bytes@),
        toml_document(decode_utf8(bytes@)) == Some(entries),
        !entries.contains_key(key_name(Key::Username)) || !entries.contains_key(
            key_name(Key::Password),
        ),
    ensures
        load_outcome(settings, FileState::Contents(bytes)) matches Err(LoadFault::FileParse(_)),
{
}

/// A refresh field that the document omits reads as five seconds.
pub proof fn lemma_omitted_refresh_is_default(entries: Map<Seq<char>, Item>)
    requires
        connection_of(entries) is Ok,
    ensures
        !entries.contains_key(key_name(Key::TorrentsRefresh)) ==> connection_of(
            entries,
        )->Ok_0.torrents_refresh == 5,
        !entries.contains_key(key_name(Key::StatsRefresh)) ==> connection_of(
            entries,
        )->Ok_0.stats_refresh == 5,
        !entries.contains_key(key_name(Key::FreeSpaceRefresh)) ==> connection_of(
            entries,
        )->Ok_0.free_space_refresh == 5,
{
}

/// A refresh field that holds an integer from zero on is accepted and read as
/// that integer.
pub proof fn lemma_cadence_passes_through(
    entries: Map<Seq<char>, Item>,
    key: Key,
    seconds: i64,
)
    requires
        entry(entries, key_name(key)) == Some(Item::Integer(seconds)),
        seconds >= 0,
    ensures
        refresh(entry(entries, key_name(key)), key) == Ok::<u64, Fault>(seconds as u64),
        connection_of(entries) is Ok ==> {
            &&& key == Key::TorrentsRefresh ==> connection_of(entries)->Ok_0.torrents_refresh
                == seconds
            &&& key == Key::StatsRefresh ==> connection_of(entries)->Ok_0.stats_refresh
                == seconds
            &&& key == Key::FreeSpaceRefresh ==> connection_of(entries)->Ok_0.free_space_refresh
                == seconds
        },
{
}

/// Where every other field is of its type, a document stands for settings if
/// and only if its `url` is a text that parses as an absolute URL.
pub proof fn lemma_url_decides(entries: Map<Seq<char>, Item>)
    requires
        optional_text(entry(entries, key_name(Key::Username)), Key::Username) is Ok,
        optional_text(entry(entries, key_name(Key::Password)), Key::Password) is Ok,
        optional_text(entry(entries, key_name(Key::CredentialsFile)), Key::CredentialsFile) is Ok,
        refresh(entry(entries, key_name(Key::TorrentsRefresh)), Key::TorrentsRefresh) is Ok,
        refresh(entry(entries, key_name(Key::StatsRefresh)), Key::StatsRefresh) is Ok,
        refresh(entry(entries, key_name(Key::FreeSpaceRefresh)), Key::FreeSpaceRefresh) is Ok,
    ensures
        connection_of(entries) is Ok <==> (entry(entries, key_name(Key::Url)) matches Some(
            Item::Text(text),
        ) && url_serialization(text) is Some),
        connection_of(entries) matches Ok(settings) ==> is_url(settings.url),
{
    if connection_of(entries) is Ok {
        let text = entry(entries, key_name(Key::Url))->Some_0->Text_0;
        assert(url_serialization(text) == Some(connection_of(entries)->Ok_0.url));
    }
}

impl Connection {
    /// Reads the settings out of a parsed table.
    pub fn from_table(table: &toml::Table) -> (parsed: Result<Connection, DocumentError>)
        ensures
            gives(parsed, connection_of(table_entries(*table))),
            parsed matches Ok(settings) ==> is_url(settings.url@),
    {
        let username = match lookup(table, Key::Username.name()).into_optional_text(Key::Username) {
            Ok(text) => text,
            Err(error) => { return Err(error); },
        };
        let password = match lookup(table, Key::Password.name()).into_optional_text(Key::Password) {
            Ok(text) => text,
            Err(error) => { return Err(error); },
        };
        let credentials_file = match lookup(
            table,
            Key::CredentialsFile.name(),
        ).into_optional_text(Key::CredentialsFile) {
            Ok(text) => text,
            Err(error) => { return Err(error); },
        };
        let url = match lookup(table, Key::Url.name()).into_endpoint() {
            Ok(url) => url,
            Err(error) => { return Err(error); },
        };
        let torrents_refresh = match lookup(table, Key::TorrentsRefresh.name()).into_refresh(
            Key::TorrentsRefresh,
        ) {
            Ok(seconds) => seconds,
            Err(error) => { return Err(error); },
        };
        let stats_refresh = match lookup(table, Key::StatsRefresh.name()).into_refresh(
            Key::StatsRefresh,
        ) {
            Ok(seconds) => seconds,
            Err(error) => { return Err(error); },
        };
        let free_space_refresh = match lookup(table, Key::FreeSpaceRefresh.name()).into_refresh(
            Key::FreeSpaceRefresh,
        ) {
            Ok(seconds) => seconds,
            Err(error) => { return Err(error); },
        };
        Ok(
            Connection {
                username,
                password,
                credentials_file,
                url,
                torrents_refresh,
                stats_refresh,
                free_space_refresh,
            },
        )
    }

    /// Reads the settings out of a TOML text.
    pub fn parse(text: &str) -> (parsed: Result<Connection, DocumentError>)
        ensures
            gives(parsed, connection_in_text(text@)),
            parsed matches Ok(settings) ==> is_url(settings.url@),
    {
        match parse_table(text) {
            Ok(table) => Connection::from_table(&table),
            Err(error) => Err(DocumentError::Syntax(error.to_string())),
        }
    }

    /// The credentials file that has to be read before the credentials can be
    /// resolved: none where the settings name none, and an error, before any
    /// file is touched, where they name one beside credentials of their own.
    pub fn file_to_read(&self) -> (path: Result<Option<&str>, LoadError>)
        ensures
            match path {
                Ok(Some(path)) => !self@.has_both_sources() && self@.credentials_file == Some(
                    path@,
                ),
                Ok(None) => self@.credentials_file is None,
                Err(error) => self@.has_both_sources() && error@ == LoadFault::ExclusiveSources,
            },
    {
        if self.credentials_file.is_some() && (self.username.is_some()
            || self.password.is_some()) {
            return Err(LoadError::ExclusiveSources);
        }
        match &self.credentials_file {
            Some(path) => Ok(Some(path.as_str())),
            None => Ok(None),
        }
    }

    /// Resolves the credentials. Settings that name no credentials file stay as
    /// they are; settings that name one take the user name and the password
    /// from it, given what the file system holds at its path. Whenever the
    /// call fails the settings stay as they are.
    pub fn load_credentials_from_file(&mut self, file: FileState) -> (result: Result<
        (),
        LoadError,
    >)
        ensures
            match load_outcome(old(self)@, file) {
                Ok(settings) => result is Ok && final(self)@ == settings,
                Err(fault) => result matches Err(error) && error@ == fault,
            },
            result is Err ==> *final(self) == *old(self),
            old(self).credentials_file is None ==> *final(self) == *old(self),
            final(self).credentials_file == old(self).credentials_file,
            final(self).url == old(self).url,
    {
        let path = match self.file_to_read() {
            Err(error) => { return Err(error); },
            Ok(None) => { return Ok(()); },
            Ok(Some(path)) => path.to_owned(),
        };
        match file {
            FileState::Missing => Err(LoadError::FileMissing(path)),
            FileState::Unreadable(report) => Err(LoadError::FileRead(report)),
            FileState::Contents(bytes) => match Credentials::from_bytes(bytes.as_slice()) {
                Err(error) => Err(LoadError::FileParse(error)),
                Ok(credentials) => {
                    self.username = Some(credentials.username);
                    self.password = Some(credentials.password);
                    Ok(())
                },
            },
        }
    }
}

} // verus!
