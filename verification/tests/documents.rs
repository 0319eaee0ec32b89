use rm_config::{default_refresh, Connection, Credentials, DocumentError, Fault, Field, Key, LoadError, DEFAULT_REFRESH};

#[test]
fn default_refresh_is_five_seconds() {
    assert_eq!(default_refresh(), 5);
    assert_eq!(DEFAULT_REFRESH, 5);
}

#[test]
fn every_field_is_read() {
    let text = "username = \"alice\"\npassword = \"s3cret\"\ncredentials_file = \"creds.toml\"\nurl = \"https://example.net:8443/rpc\"\ntorrents_refresh = 1\nstats_refresh = 2\nfree_space_refresh = 3\n";
    let settings = Connection::parse(text).unwrap();
    assert_eq!(
        settings,
        Connection {
            username: Some("alice".to_string()),
            password: Some("s3cret".to_string()),
            credentials_file: Some("creds.toml".to_string()),
            url: "https://example.net:8443/rpc".to_string(),
            torrents_refresh: 1,
            stats_refresh: 2,
            free_space_refresh: 3,
        }
    );
}

#[test]
fn each_omitted_refresh_reads_as_five() {
    let settings = Connection::parse("url = \"http://h/\"\nstats_refresh = 11\n").unwrap();
    assert_eq!((settings.torrents_refresh, settings.stats_refresh, settings.free_space_refresh), (5, 11, 5));
    let settings = Connection::parse("url = \"http://h/\"\nfree_space_refresh = 12\n").unwrap();
    assert_eq!((settings.torrents_refresh, settings.stats_refresh, settings.free_space_refresh), (5, 5, 12));
    let settings = Connection::parse("url = \"http://h/\"\n").unwrap();
    assert_eq!((settings.torrents_refresh, settings.stats_refresh, settings.free_space_refresh), (5, 5, 5));
    assert_eq!(settings.username, None);
    assert_eq!(settings.password, None);
    assert_eq!(settings.credentials_file, None);
}

#[test]
fn zero_cadence_is_accepted_and_kept() {
    let settings = Connection::parse("url = \"http://h/\"\ntorrents_refresh = 0\n").unwrap();
    assert_eq!(settings.torrents_refresh, 0);
}

#[test]
fn largest_cadence_is_accepted_and_kept() {
    let settings = Connection::parse("url = \"http://h/\"\nstats_refresh = 9223372036854775807\n").unwrap();
    assert_eq!(settings.stats_refresh, 9223372036854775807);
}

#[test]
fn negative_cadence_is_refused() {
    assert_eq!(
        Connection::parse("url = \"http://h/\"\nfree_space_refresh = -1\n"),
        Err(DocumentError::InvalidField(Key::FreeSpaceRefresh))
    );
}

#[test]
fn cadence_of_another_type_is_refused() {
    assert_eq!(
        Connection::parse("url = \"http://h/\"\ntorrents_refresh = \"30\"\n"),
        Err(DocumentError::InvalidField(Key::TorrentsRefresh))
    );
    assert_eq!(
        Connection::parse("url = \"http://h/\"\nstats_refresh = 2.5\n"),
        Err(DocumentError::InvalidField(Key::StatsRefresh))
    );
}

#[test]
fn url_must_be_there_and_be_text() {
    assert_eq!(Connection::parse("username = \"alice\"\n"), Err(DocumentError::MissingField(Key::Url)));
    assert_eq!(Connection::parse("url = 9091\n"), Err(DocumentError::InvalidField(Key::Url)));
}

#[test]
fn url_must_be_absolute() {
    for text in ["", "host", "/transmission/rpc", "transmission/rpc", "//host/rpc", "http://", "http://host:port/"] {
        let document = format!("url = {:?}\n", text);
        assert_eq!(Connection::parse(&document), Err(DocumentError::InvalidUrl), "{}", text);
    }
    for text in ["http://h/", "https://example.net", "ftp://rms@example.com", "http://127.0.0.1:9091/transmission/rpc", "unix:/run/foo.socket"] {
        let document = format!("url = {:?}\n", text);
        assert!(Connection::parse(&document).is_ok(), "{}", text);
    }
}

#[test]
fn url_is_kept_as_it_is_written_back() {
    let settings = Connection::parse("url = \"HTTP://Example.NET:80/a/../b\"\n").unwrap();
    assert_eq!(settings.url, "http://example.net/b");
    let settings = Connection::parse("url = \"https://example.net\"\n").unwrap();
    assert_eq!(settings.url, "https://example.net/");
}

#[test]
fn optional_text_of_another_type_is_refused() {
    assert_eq!(Connection::parse("url = \"http://h/\"\nusername = 1\n"), Err(DocumentError::InvalidField(Key::Username)));
    assert_eq!(Connection::parse("url = \"http://h/\"\npassword = true\n"), Err(DocumentError::InvalidField(Key::Password)));
    assert_eq!(
        Connection::parse("url = \"http://h/\"\ncredentials_file = [\"a\"]\n"),
        Err(DocumentError::InvalidField(Key::CredentialsFile))
    );
}

#[test]
fn first_fault_in_field_order_is_reported() {
    assert_eq!(Connection::parse("torrents_refresh = -1\npassword = 2\n"), Err(DocumentError::InvalidField(Key::Password)));
    assert_eq!(Connection::parse("torrents_refresh = -1\nstats_refresh = -1\n"), Err(DocumentError::MissingField(Key::Url)));
    assert_eq!(
        Connection::parse("url = \"http://h/\"\nfree_space_refresh = -1\nstats_refresh = -1\n"),
        Err(DocumentError::InvalidField(Key::StatsRefresh))
    );
    assert_eq!(Credentials::parse("password = 1\n"), Err(DocumentError::MissingField(Key::Username)));
    assert_eq!(Credentials::parse("username = 1\n"), Err(DocumentError::InvalidField(Key::Username)));
}

#[test]
fn unknown_keys_are_passed_over() {
    let settings = Connection::parse("url = \"http://h/\"\ncolour = \"red\"\n[general]\nbeeper = true\n").unwrap();
    assert_eq!(settings.url, "http://h/");
}

#[test]
fn text_that_is_not_toml_is_refused_with_a_report() {
    match Connection::parse("url = \"http://h/\"\nurl = \"http://h/\"\n") {
        Err(DocumentError::Syntax(report)) => assert!(!report.is_empty()),
        other => panic!("unexpected result: {:?}", other),
    }
    let error = Credentials::parse("username \"bob\"").unwrap_err();
    assert_eq!(error.fault(), Fault::Syntax);
    match &error {
        DocumentError::Syntax(report) => assert_eq!(&error.message(), report),
        other => panic!("unexpected error: {:?}", other),
    }
}

#[test]
fn settings_are_read_from_a_section_of_a_larger_document() {
    let document: toml::Table = "[connection]\nurl = \"http://h/\"\ncredentials_file = \"c.toml\"\nstats_refresh = 0\n".parse().unwrap();
    let section = document.get("connection").and_then(toml::Value::as_table).unwrap();
    let settings = Connection::from_table(section).unwrap();
    assert_eq!(settings.url, "http://h/");
    assert_eq!(settings.credentials_file.as_deref(), Some("c.toml"));
    assert_eq!((settings.torrents_refresh, settings.stats_refresh, settings.free_space_refresh), (5, 0, 5));
    assert_eq!(Connection::from_table(&document), Err(DocumentError::MissingField(Key::Url)));
}

#[test]
fn credentials_are_read_from_a_table() {
    let mut table = toml::Table::new();
    assert_eq!(Credentials::from_table(&table), Err(DocumentError::MissingField(Key::Username)));
    table.insert("username".to_string(), toml::Value::String("bob".to_string()));
    assert_eq!(Credentials::from_table(&table), Err(DocumentError::MissingField(Key::Password)));
    table.insert("password".to_string(), toml::Value::Integer(4));
    assert_eq!(Credentials::from_table(&table), Err(DocumentError::InvalidField(Key::Password)));
    table.insert("password".to_string(), toml::Value::String("hunter2".to_string()));
    assert_eq!(
        Credentials::from_table(&table),
        Ok(Credentials { username: "bob".to_string(), password: "hunter2".to_string() })
    );
}

#[test]
fn credentials_are_read_from_bytes() {
    assert_eq!(
        Credentials::from_bytes(b"username = 'bob'\npassword = 'hunter2'\n"),
        Ok(Credentials { username: "bob".to_string(), password: "hunter2".to_string() })
    );
    assert_eq!(Credentials::from_bytes(&[0xEF, 0xBB, 0xBF]), Err(DocumentError::ByteOrderMark));
    assert_eq!(Credentials::from_bytes(&[0xEF, 0xBB]), Err(DocumentError::InvalidUtf8));
    assert_eq!(Credentials::from_bytes(&[0xC0, 0x80]), Err(DocumentError::InvalidUtf8));
    assert_eq!(Credentials::from_bytes(b""), Err(DocumentError::MissingField(Key::Username)));
}

#[test]
fn fields_are_taken_by_their_type() {
    let text = || Field::Text("t".to_string());
    assert_eq!(text().into_text(Key::Username), Ok("t".to_string()));
    assert_eq!(Field::Absent.into_text(Key::Username), Err(DocumentError::MissingField(Key::Username)));
    assert_eq!(Field::Integer(1).into_text(Key::Password), Err(DocumentError::InvalidField(Key::Password)));
    assert_eq!(Field::Other.into_text(Key::Url), Err(DocumentError::InvalidField(Key::Url)));

    assert_eq!(text().into_optional_text(Key::Username), Ok(Some("t".to_string())));
    assert_eq!(Field::Absent.into_optional_text(Key::Username), Ok(None));
    assert_eq!(Field::Integer(1).into_optional_text(Key::CredentialsFile), Err(DocumentError::InvalidField(Key::CredentialsFile)));
    assert_eq!(Field::Other.into_optional_text(Key::Password), Err(DocumentError::InvalidField(Key::Password)));

    assert_eq!(Field::Absent.into_refresh(Key::StatsRefresh), Ok(5));
    assert_eq!(Field::Integer(0).into_refresh(Key::StatsRefresh), Ok(0));
    assert_eq!(Field::Integer(i64::MAX).into_refresh(Key::StatsRefresh), Ok(9223372036854775807));
    assert_eq!(Field::Integer(-1).into_refresh(Key::StatsRefresh), Err(DocumentError::InvalidField(Key::StatsRefresh)));
    assert_eq!(Field::Integer(i64::MIN).into_refresh(Key::TorrentsRefresh), Err(DocumentError::InvalidField(Key::TorrentsRefresh)));
    assert_eq!(text().into_refresh(Key::FreeSpaceRefresh), Err(DocumentError::InvalidField(Key::FreeSpaceRefresh)));
    assert_eq!(Field::Other.into_refresh(Key::FreeSpaceRefresh), Err(DocumentError::InvalidField(Key::FreeSpaceRefresh)));

    assert_eq!(Field::Text("http://EXAMPLE.net".to_string()).into_endpoint(), Ok("http://example.net/".to_string()));
    assert_eq!(Field::Text("example.net".to_string()).into_endpoint(), Err(DocumentError::InvalidUrl));
    assert_eq!(Field::Absent.into_endpoint(), Err(DocumentError::MissingField(Key::Url)));
    assert_eq!(Field::Integer(3).into_endpoint(), Err(DocumentError::InvalidField(Key::Url)));
}

#[test]
fn keys_are_written_as_in_the_documents() {
    assert_eq!(Key::Username.name(), "username");
    assert_eq!(Key::Password.name(), "password");
    assert_eq!(Key::CredentialsFile.name(), "credentials_file");
    assert_eq!(Key::Url.name(), "url");
    assert_eq!(Key::TorrentsRefresh.name(), "torrents_refresh");
    assert_eq!(Key::StatsRefresh.name(), "stats_refresh");
    assert_eq!(Key::FreeSpaceRefresh.name(), "free_space_refresh");
}

#[test]
fn errors_are_put_in_words() {
    assert_eq!(
        LoadError::ExclusiveSources.message(),
        "cannot specify both `credentials_file` and `username`/`password`"
    );
    assert_eq!(LoadError::FileMissing("a/b.toml".to_string()).message(), "credentials file not found: a/b.toml");
    assert_eq!(LoadError::FileRead("disk on fire".to_string()).message(), "cannot read credentials file: disk on fire");
    assert_eq!(
        LoadError::FileParse(DocumentError::MissingField(Key::Password)).message(),
        "invalid credentials file: missing field `password`"
    );
    assert_eq!(DocumentError::ByteOrderMark.message(), "the file begins with a byte order mark");
    assert_eq!(DocumentError::InvalidUtf8.message(), "the file is not UTF-8 text");
    assert_eq!(DocumentError::Syntax("line 1".to_string()).message(), "line 1");
    assert_eq!(DocumentError::MissingField(Key::Url).message(), "missing field `url`");
    assert_eq!(DocumentError::InvalidField(Key::StatsRefresh).message(), "invalid value for field `stats_refresh`");
    assert_eq!(DocumentError::InvalidUrl.message(), "field `url` is not an absolute URL");
}

#[test]
fn faults_drop_the_report() {
    assert_eq!(DocumentError::ByteOrderMark.fault(), Fault::ByteOrderMark);
    assert_eq!(DocumentError::InvalidUtf8.fault(), Fault::InvalidUtf8);
    assert_eq!(DocumentError::Syntax("x".to_string()).fault(), Fault::Syntax);
    assert_eq!(DocumentError::MissingField(Key::Url).fault(), Fault::MissingField(Key::Url));
    assert_eq!(DocumentError::InvalidField(Key::Url).fault(), Fault::InvalidField(Key::Url));
    assert_eq!(DocumentError::InvalidUrl.fault(), Fault::InvalidUrl);
}
