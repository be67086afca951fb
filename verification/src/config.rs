//! Server, database and mail settings, and how they are read from the TOML file.

use vstd::prelude::*;

verus! {

/// Where the HTTP server listens and how many workers it runs.
#[derive(Debug)]
pub struct ServerConfig {
    pub host: String,
    pub port: u32,
    pub thread_numbers: u32,
}

/// How to reach the MySQL database.
#[derive(Debug)]
pub struct MysqlConfig {
    pub host: String,
    pub port: u32,
    pub username: String,
    pub password: String,
    pub db_name: String,
    pub pool_numbers: u32,
}

/// The account that sends verification mail.
#[derive(Debug)]
pub struct EmailConfig {
    pub username: String,
    pub password: String,
    pub gamil: String,
}

/// The whole configuration of the service.
#[derive(Debug)]
pub struct Config {
    pub server: ServerConfig,
    pub mysql: MysqlConfig,
    pub email: EmailConfig,
}


/// What a key of the configuration file holds, as the settings read it.
pub enum TomlLookup {
    /// The file is not valid TOML.
    Unparsable,
    /// The table or the key is absent.
    Missing,
    Str(String),
    Int(i64),
    /// A value of another type.
    Other,
}

/// The value of a lookup, as text and numbers.
pub enum TomlEntry {
    Unparsable,
    Missing,
    Str(Seq<char>),
    Int(i64),
    Other,
}

impl View for TomlLookup {
    type V = TomlEntry;

    open spec fn view(&self) -> TomlEntry {
        match self {
            TomlLookup::Unparsable => TomlEntry::Unparsable,
            TomlLookup::Missing => TomlEntry::Missing,
            TomlLookup::Str(s) => TomlEntry::Str(s@),
            TomlLookup::Int(i) => TomlEntry::Int(*i),
            TomlLookup::Other => TomlEntry::Other,
        }
    }
}

/// What the toml crate finds at `[table] key` of the document `contents`.
pub uninterp spec fn toml_entry(contents: Seq<char>, table: Seq<char>, key: Seq<char>) -> TomlEntry;

/// Parses `contents` as a TOML document (`str::parse::<toml::Value>`) and reads the value
/// at `[table] key` (`toml::Value::get`), telling strings and integers apart from the rest.
/// The result is named, not described: it depends on the three texts alone.
#[verifier::external_body]
fn lookup_toml(contents: &str, table: &str, key: &str) -> (r: TomlLookup)
    ensures
        r@ == toml_entry(contents@, table@, key@),
{
    match contents.parse::<toml::Value>() {
        Err(_) => TomlLookup::Unparsable,
        Ok(doc) => match doc.get(table) {
            None => TomlLookup::Missing,
            Some(section) => match section.get(key) {
                None => TomlLookup::Missing,
                Some(toml::Value::String(s)) => TomlLookup::Str(s.clone()),
                Some(toml::Value::Integer(i)) => TomlLookup::Int(*i),
                Some(_) => TomlLookup::Other,
            },
        },
    }
}

/// Why the configuration could not be read; reading it panics in either case.
#[derive(Debug, Clone, Copy, PartialEq, Eq, Structural)]
pub enum ConfigError {
    Unparsable,
    MissingKey,
}

/// The twelve lookups the configuration makes, in the order it makes them.
pub struct ConfigLookups {
    pub server_host: TomlLookup,
    pub server_port: TomlLookup,
    pub server_thread_numbers: TomlLookup,
    pub mysql_host: TomlLookup,
    pub mysql_port: TomlLookup,
    pub mysql_username: TomlLookup,
    pub mysql_password: TomlLookup,
    pub mysql_db_name: TomlLookup,
    pub mysql_pool_numbers: TomlLookup,
    pub email_username: TomlLookup,
    pub email_password: TomlLookup,
    pub email_gmail: TomlLookup,
}

pub open spec fn found(e: TomlEntry) -> bool {
    !(e is Unparsable) && !(e is Missing)
}

/// The text of a string entry, or `default`.
pub open spec fn str_or(e: TomlEntry, default: Seq<char>) -> Seq<char> {
    match e {
        TomlEntry::Str(s) => s,
        _ => default,
    }
}

/// The integer of an integer entry, or `default`, cut to 32 bits as `as u32` does.
pub open spec fn int_or(e: TomlEntry, default: i64) -> u32 {
    match e {
        TomlEntry::Int(i) => i as u32,
        _ => default as u32,
    }
}

/// The error of the first lookup among `es` that found no value.
pub open spec fn lookup_error(es: Seq<TomlEntry>) -> ConfigError
    decreases es.len(),
{
    if es.len() == 0 {
        ConfigError::MissingKey
    } else if es[0] is Unparsable {
        ConfigError::Unparsable
    } else if es[0] is Missing {
        ConfigError::MissingKey
    } else {
        lookup_error(es.drop_first())
    }
}

impl ConfigLookups {
    pub open spec fn entries(&self) -> Seq<TomlEntry> {
        seq![
            self.server_host@, self.server_port@, self.server_thread_numbers@, self.mysql_host@,
            self.mysql_port@, self.mysql_username@, self.mysql_password@, self.mysql_db_name@,
            self.mysql_pool_numbers@, self.email_username@, self.email_password@, self.email_gmail@,
        ]
    }
}

/// `c` holds the settings that the twelve entries `es` give, with the built-in defaults
/// for values that are not of the expected type.
pub open spec fn config_from(es: Seq<TomlEntry>, c: Config) -> bool {
    &&& c.server.host@ == str_or(es[0], "127.0.0.1"@)
    &&& c.server.port == int_or(es[1], 8080)
    &&& c.server.thread_numbers == int_or(es[2], 80)
    &&& c.mysql.host@ == str_or(es[3], "localhost"@)
    &&& c.mysql.port == int_or(es[4], 3306)
    &&& c.mysql.username@ == str_or(es[5], "root"@)
    &&& c.mysql.password@ == str_or(es[6], ""@)
    &&& c.mysql.db_name@ == str_or(es[7], ""@)
    &&& c.mysql.pool_numbers == int_or(es[8], 15)
    &&& c.email.username@ == str_or(es[9], ""@)
    &&& c.email.password@ == str_or(es[10], ""@)
    &&& c.email.gamil@ == str_or(es[11], ""@)
}

fn text_or(e: &TomlLookup, default: &str) -> (s: String)
    ensures
        s@ == str_or(e@, default@),
{
    match e {
        TomlLookup::Str(s) => s.clone(),
        _ => String::from_str(default),
    }
}

fn number_or(e: &TomlLookup, default: i64) -> (n: u32)
    ensures
        n == int_or(e@, default),
{
    match e {
        TomlLookup::Int(i) => *i as u32,
        _ => default as u32,
    }
}

fn check_found(e: &TomlLookup) -> (r: Result<(), ConfigError>)
    ensures
        e@ is Unparsable ==> r == Err::<(), ConfigError>(ConfigError::Unparsable),
        e@ is Missing ==> r == Err::<(), ConfigError>(ConfigError::MissingKey),
        found(e@) ==> r is Ok,
{
    match e {
        TomlLookup::Unparsable => Err(ConfigError::Unparsable),
        TomlLookup::Missing => Err(ConfigError::MissingKey),
        _ => Ok(()),
    }
}

impl Config {
    /// The configuration the lookups give: an error when one of them found no value
    /// (the first such lookup decides which), the settings otherwise.
    pub fn from_lookups(l: &ConfigLookups) -> (r: Result<Config, ConfigError>)
        ensures
            r is Ok <==> forall|i: int| 0 <= i < 12 ==> found(#[trigger] l.entries()[i]),
            r matches Ok(c) ==> config_from(l.entries(), c),
            r matches Err(e) ==> e == lookup_error(l.entries()),
    {
        let ghost es = l.entries();
        proof {
            reveal_with_fuel(lookup_error, 13);
            assert(es.drop_first() =~= es.subrange(1, 12));
        }
        check_found(&l.server_host)?;
        check_found(&l.server_port)?;
        check_found(&l.server_thread_numbers)?;
        check_found(&l.mysql_host)?;
        check_found(&l.mysql_port)?;
        check_found(&l.mysql_username)?;
        check_found(&l.mysql_password)?;
        check_found(&l.mysql_db_name)?;
        check_found(&l.mysql_pool_numbers)?;
        check_found(&l.email_username)?;
        check_found(&l.email_password)?;
        check_found(&l.email_gmail)?;
        assert(forall|i: int| 0 <= i < 12 ==> found(#[trigger] es[i]));
        Ok(Config {
            server: ServerConfig {
                host: text_or(&l.server_host, "127.0.0.1"),
                port: number_or(&l.server_port, 8080),
                thread_numbers: number_or(&l.server_thread_numbers, 80),
            },
            mysql: MysqlConfig {
                host: text_or(&l.mysql_host, "localhost"),
                port: number_or(&l.mysql_port, 3306),
                username: text_or(&l.mysql_username, "root"),
                password: text_or(&l.mysql_password, ""),
                db_name: text_or(&l.mysql_db_name, ""),
                pool_numbers: number_or(&l.mysql_pool_numbers, 15),
            },
            email: EmailConfig {
                username: text_or(&l.email_username, ""),
                password: text_or(&l.email_password, ""),
                gamil: text_or(&l.email_gmail, ""),
            },
        })
    }

    /// Reads the settings from the text of the configuration file.
    pub fn from_toml(contents: &str) -> (r: Result<Config, ConfigError>)
        ensures
            (r is Ok) <==> (forall|i: int| 0 <= i < 12 ==> found(#[trigger] toml_lookups_of(contents@)[i])),
            r matches Ok(c) ==> config_from(toml_lookups_of(contents@), c),
            r matches Err(e) ==> e == lookup_error(toml_lookups_of(contents@)),
    {
        let l = ConfigLookups {
            server_host: lookup_toml(contents, "server", "host"),
            server_port: lookup_toml(contents, "server", "port"),
            server_thread_numbers: lookup_toml(contents, "server", "thread_numbers"),
            mysql_host: lookup_toml(contents, "mysql", "host"),
            mysql_port: lookup_toml(contents, "mysql", "port"),
            mysql_username: lookup_toml(contents, "mysql", "username"),
            mysql_password: lookup_toml(contents, "mysql", "password"),
            mysql_db_name: lookup_toml(contents, "mysql", "db_name"),
            mysql_pool_numbers: lookup_toml(contents, "mysql", "pool_numbers"),
            email_username: lookup_toml(contents, "email", "username"),
            email_password: lookup_toml(contents, "email", "password"),
            email_gmail: lookup_toml(contents, "email", "gmail"),
        };
        assert(l.entries() =~= toml_lookups_of(contents@));
        Config::from_lookups(&l)
    }
}

/// What the toml crate finds at the twelve keys of the configuration in `contents`.
pub open spec fn toml_lookups_of(contents: Seq<char>) -> Seq<TomlEntry> {
    seq![
        toml_entry(contents, "server"@, "host"@), toml_entry(contents, "server"@, "port"@),
        toml_entry(contents, "server"@, "thread_numbers"@), toml_entry(contents, "mysql"@, "host"@),
        toml_entry(contents, "mysql"@, "port"@), toml_entry(contents, "mysql"@, "username"@),
        toml_entry(contents, "mysql"@, "password"@), toml_entry(contents, "mysql"@, "db_name"@),
        toml_entry(contents, "mysql"@, "pool_numbers"@), toml_entry(contents, "email"@, "username"@),
        toml_entry(contents, "email"@, "password"@), toml_entry(contents, "email"@, "gmail"@),
    ]
}

/// Where the full-text index of the posts lives: the `[elasticsearch]` table.
#[derive(Debug)]
pub struct ElasticsearchConfig {
    pub host: String,
    pub port: u32,
    pub index: String,
}

/// What the toml crate finds at the three keys of the search settings in `contents`.
pub open spec fn search_lookups_of(contents: Seq<char>) -> Seq<TomlEntry> {
    seq![
        toml_entry(contents, "elasticsearch"@, "host"@), toml_entry(contents, "elasticsearch"@, "port"@),
        toml_entry(contents, "elasticsearch"@, "index"@),
    ]
}

impl ElasticsearchConfig {
    /// Reads the search settings from the text of the configuration file: an error when
    /// a key is absent (the first such key decides which), and the defaults `127.0.0.1`,
    /// `9200` and an empty index for values that are not of the expected type.
    pub fn from_toml(contents: &str) -> (r: Result<ElasticsearchConfig, ConfigError>)
        ensures
            (r is Ok) <==> (forall|i: int| 0 <= i < 3 ==> found(#[trigger] search_lookups_of(contents@)[i])),
            r matches Ok(c) ==> c.host@ == str_or(search_lookups_of(contents@)[0], "127.0.0.1"@)
                && c.port == int_or(search_lookups_of(contents@)[1], 9200)
                && c.index@ == str_or(search_lookups_of(contents@)[2], ""@),
            r matches Err(e) ==> e == lookup_error(search_lookups_of(contents@)),
    {
        let host = lookup_toml(contents, "elasticsearch", "host");
        let port = lookup_toml(contents, "elasticsearch", "port");
        let index = lookup_toml(contents, "elasticsearch", "index");
        let ghost es = search_lookups_of(contents@);
        proof {
            reveal_with_fuel(lookup_error, 4);
            assert(es.drop_first() =~= es.subrange(1, 3));
            assert(es.drop_first().drop_first() =~= es.subrange(2, 3));
        }
        check_found(&host)?;
        check_found(&port)?;
        check_found(&index)?;
        assert(forall|i: int| 0 <= i < 3 ==> found(#[trigger] es[i]));
        Ok(ElasticsearchConfig {
            host: text_or(&host, "127.0.0.1"),
            port: number_or(&port, 9200),
            index: text_or(&index, ""),
        })
    }
}

/// A setting takes the file's value when it has the expected type (a string, or an
/// integer cut to its low 32 bits) and the default otherwise.
pub proof fn lemma_setting_values(s: Seq<char>, i: i64, default_text: Seq<char>, default_number: i64)
    ensures
        str_or(TomlEntry::Str(s), default_text) == s,
        str_or(TomlEntry::Int(i), default_text) == default_text,
        str_or(TomlEntry::Other, default_text) == default_text,
        int_or(TomlEntry::Int(i), default_number) == i as u32,
        int_or(TomlEntry::Str(s), default_number) == default_number as u32,
        int_or(TomlEntry::Other, default_number) == default_number as u32,
        0 <= i < 0x1_0000_0000 ==> int_or(TomlEntry::Int(i), default_number) == i,
{
}

} // verus!
