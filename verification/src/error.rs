//! What can go wrong: a document that is not the expected one, and a
//! credentials file that cannot be taken.

use vstd::prelude::*;
use vstd::string::StringExecFns;

verus! {

/// The keys that the two documents know.
#[derive(Debug, Clone, Copy, PartialEq, Eq, Structural)]
pub enum Key {
    Username,
    Password,
    CredentialsFile,
    Url,
    TorrentsRefresh,
    StatsRefresh,
    FreeSpaceRefresh,
}

/// A key as it is written in a document.
pub open spec fn key_name(key: Key) -> Seq<char> {
    match key {
        Key::Username => "username"@,
        Key::Password => "password"@,
        Key::CredentialsFile => "credentials_file"@,
        Key::Url => "url"@,
        Key::TorrentsRefresh => "torrents_refresh"@,
        Key::StatsRefresh => "stats_refresh"@,
        Key::FreeSpaceRefresh => "free_space_refresh"@,
    }
}

/// No two keys are written alike, so no key is read for another.
pub proof fn lemma_key_names_differ(first: Key, second: Key)
    requires
        first != second,
    ensures
        key_name(first) != key_name(second),
{
    reveal_strlit("username");
    reveal_strlit("password");
    reveal_strlit("credentials_file");
    reveal_strlit("url");
    reveal_strlit("torrents_refresh");
    reveal_strlit("stats_refresh");
    reveal_strlit("free_space_refresh");
    assert(key_name(Key::Username).len() == 8 && key_name(Key::Username)[0] == 'u');
    assert(key_name(Key::Password).len() == 8 && key_name(Key::Password)[0] == 'p');
    assert(key_name(Key::CredentialsFile).len() == 16 && key_name(Key::CredentialsFile)[0] == 'c');
    assert(key_name(Key::Url).len() == 3);
    assert(key_name(Key::TorrentsRefresh).len() == 16 && key_name(Key::TorrentsRefresh)[0] == 't');
    assert(key_name(Key::StatsRefresh).len() == 13);
    assert(key_name(Key::FreeSpaceRefresh).len() == 18);
}

impl Key {
    /// The key as it is written in a document.
    pub fn name(self) -> (name: &'static str)
        ensures
            name@ == key_name(self),
    {
        match self {
            Key::Username => "username",
            Key::Password => "password",
            Key::CredentialsFile => "credentials_file",
            Key::Url => "url",
            Key::TorrentsRefresh => "torrents_refresh",
            Key::StatsRefresh => "stats_refresh",
            Key::FreeSpaceRefresh => "free_space_refresh",
        }
    }
}

/// Why a document was refused, without the parser's own words.
#[derive(Debug, Clone, Copy, PartialEq, Eq, Structural)]
pub enum Fault {
    /// The file begins with a byte order mark.
    ByteOrderMark,
    /// The file is not UTF-8.
    InvalidUtf8,
    /// The text is not TOML.
    Syntax,
    /// A key that must be there is not.
    MissingField(Key),
    /// A key holds a value of the wrong type, or a negative cadence.
    InvalidField(Key),
    /// The address is not an absolute URL.
    InvalidUrl,
}

/// Why a document was refused.
#[derive(Debug, Clone, PartialEq, Eq)]
pub enum DocumentError {
    /// The file begins with a byte order mark.
    ByteOrderMark,
    /// The file is not UTF-8.
    InvalidUtf8,
    /// The text is not TOML; the parser's report is carried along.
    Syntax(String),
    /// A key that must be there is not.
    MissingField(Key),
    /// A key holds a value of the wrong type, or a negative cadence.
    InvalidField(Key),
    /// The address is not an absolute URL.
    InvalidUrl,
}

impl View for DocumentError {
    type V = Fault;

    open spec fn view(&self) -> Fault {
        match self {
            DocumentError::ByteOrderMark => Fault::ByteOrderMark,
            DocumentError::InvalidUtf8 => Fault::InvalidUtf8,
            DocumentError::Syntax(_) => Fault::Syntax,
            DocumentError::MissingField(key) => Fault::MissingField(*key),
            DocumentError::InvalidField(key) => Fault::InvalidField(*key),
            DocumentError::InvalidUrl => Fault::InvalidUrl,
        }
    }
}

/// Whether a function gave what a document stands for: the value where there
/// is one, and else the fault.
pub open spec fn gives<T: View>(
    result: Result<T, DocumentError>,
    meaning: Result<T::V, Fault>,
) -> bool {
    match result {
        Ok(value) => meaning == Ok::<T::V, Fault>(value@),
        Err(error) => meaning == Err::<T::V, Fault>(error@),
    }
}

impl DocumentError {
    /// The words in which the error is shown.
    pub open spec fn message_text(&self) -> Seq<char> {
        match self {
            DocumentError::ByteOrderMark => "the file begins with a byte order mark"@,
            DocumentError::InvalidUtf8 => "the file is not UTF-8 text"@,
            DocumentError::Syntax(report) => report@,
            DocumentError::MissingField(key) => "missing field `"@ + key_name(*key) + "`"@,
            DocumentError::InvalidField(key) => {
                "invalid value for field `"@ + key_name(*key) + "`"@
            },
            DocumentError::InvalidUrl => "field `url` is not an absolute URL"@,
        }
    }

    /// The fault without the parser's words.
    pub fn fault(&self) -> (fault: Fault)
        ensures
            fault == self@,
    {
        match self {
            DocumentError::ByteOrderMark => Fault::ByteOrderMark,
            DocumentError::InvalidUtf8 => Fault::InvalidUtf8,
            DocumentError::Syntax(_) => Fault::Syntax,
            DocumentError::MissingField(key) => Fault::MissingField(*key),
            DocumentError::InvalidField(key) => Fault::InvalidField(*key),
            DocumentError::InvalidUrl => Fault::InvalidUrl,
        }
    }

    /// The error in words, for the user.
    pub fn message(&self) -> (message: String)
        ensures
            message@ == self.message_text(),
    {
        match self {
            DocumentError::ByteOrderMark => {
                String::from_str("the file begins with a byte order mark")
            },
            DocumentError::InvalidUtf8 => String::from_str("the file is not UTF-8 text"),
            DocumentError::Syntax(report) => report.clone(),
            DocumentError::MissingField(key) => {
                String::from_str("missing field `").concat(key.name()).concat("`")
            },
            DocumentError::InvalidField(key) => {
                String::from_str("invalid value for field `").concat(key.name()).concat("`")
            },
            DocumentError::InvalidUrl => String::from_str("field `url` is not an absolute URL"),
        }
    }
}

/// Why the credentials could not be taken, without the parser's own words.
pub enum LoadFault {
    /// The settings name a file and hold a user name or a password of their own.
    ExclusiveSources,
    /// Nothing is at the path.
    FileMissing(Seq<char>),
    /// The file is there and could not be read; the reader's report.
    FileRead(Seq<char>),
    /// The file is not a credentials document.
    FileParse(Fault),
}

/// Why the credentials could not be taken.
#[derive(Debug, Clone, PartialEq, Eq)]
pub enum LoadError {
    /// The settings name a file and hold a user name or a password of their own.
    ExclusiveSources,
    /// Nothing is at the path, which is carried along.
    FileMissing(String),
    /// The file is there and could not be read; the reader's report is carried
    /// along.
    FileRead(String),
    /// The file is not a credentials document.
    FileParse(DocumentError),
}

impl View for LoadError {
    type V = LoadFault;

    open spec fn view(&self) -> LoadFault {
        match self {
            LoadError::ExclusiveSources => LoadFault::ExclusiveSources,
            LoadError::FileMissing(path) => LoadFault::FileMissing(path@),
            LoadError::FileRead(report) => LoadFault::FileRead(report@),
            LoadError::FileParse(error) => LoadFault::FileParse(error@),
        }
    }
}

impl LoadError {
    /// The words in which the error is shown.
    pub open spec fn message_text(&self) -> Seq<char> {
        match self {
            LoadError::ExclusiveSources => {
                "cannot specify both `credentials_file` and `username`/`password`"@
            },
            LoadError::FileMissing(path) => "credentials file not found: "@ + path@,
            LoadError::FileRead(report) => "cannot read credentials file: "@ + report@,
            LoadError::FileParse(error) => "invalid credentials file: "@ + error.message_text(),
        }
    }

    /// The error in words, for the user.
    pub fn message(&self) -> (message: String)
        ensures
            message@ == self.message_text(),
    {
        match self {
            LoadError::ExclusiveSources => String::from_str(
                "cannot specify both `credentials_file` and `username`/`password`",
            ),
            LoadError::FileMissing(path) => {
                String::from_str("credentials file not found: ").concat(path.as_str())
            },
            LoadError::FileRead(report) => {
                String::from_str("cannot read credentials file: ").concat(report.as_str())
            },
            LoadError::FileParse(error) => {
                let detail = error.message();
                String::from_str("invalid credentials file: ").concat(detail.as_str())
            },
        }
    }
}

} // verus!
