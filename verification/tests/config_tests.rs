use program_station::config::{Config, ConfigError, ElasticsearchConfig};

const FULL: &str = r#"
[server]
host = "0.0.0.0"
port = 8082
thread_numbers = 4

[mysql]
host = "db"
port = 3307
username = "blog"
password = "pw"
db_name = "station"
pool_numbers = 10

[email]
username = "bot"
password = "secret"
gmail = "smtp.example.com"
"#;

#[test]
fn full_file_is_read() {
    let c = Config::from_toml(FULL).unwrap();
    assert_eq!(c.server.host, "0.0.0.0");
    assert_eq!(c.server.port, 8082);
    assert_eq!(c.server.thread_numbers, 4);
    assert_eq!(c.mysql.host, "db");
    assert_eq!(c.mysql.port, 3307);
    assert_eq!(c.mysql.username, "blog");
    assert_eq!(c.mysql.password, "pw");
    assert_eq!(c.mysql.db_name, "station");
    assert_eq!(c.mysql.pool_numbers, 10);
    assert_eq!(c.email.username, "bot");
    assert_eq!(c.email.password, "secret");
    assert_eq!(c.email.gamil, "smtp.example.com");
}

#[test]
fn values_of_another_type_fall_back_to_defaults() {
    let text = r#"
[server]
host = 1
port = "x"
thread_numbers = true

[mysql]
host = 2
port = "y"
username = 3
password = 4
db_name = 5
pool_numbers = "z"

[email]
username = 6
password = 7
gmail = 8
"#;
    let c = Config::from_toml(text).unwrap();
    assert_eq!(c.server.host, "127.0.0.1");
    assert_eq!(c.server.port, 8080);
    assert_eq!(c.server.thread_numbers, 80);
    assert_eq!(c.mysql.host, "localhost");
    assert_eq!(c.mysql.port, 3306);
    assert_eq!(c.mysql.username, "root");
    assert_eq!(c.mysql.password, "");
    assert_eq!(c.mysql.db_name, "");
    assert_eq!(c.mysql.pool_numbers, 15);
    assert_eq!(c.email.username, "");
    assert_eq!(c.email.password, "");
    assert_eq!(c.email.gamil, "");
}

#[test]
fn integers_are_cut_to_32_bits() {
    let text = FULL.replace("port = 8082", "port = 4294967297").replace("pool_numbers = 10", "pool_numbers = -1");
    let c = Config::from_toml(&text).unwrap();
    assert_eq!(c.server.port, 1);
    assert_eq!(c.mysql.pool_numbers, u32::MAX);
}

#[test]
fn missing_key_or_table_is_an_error() {
    let text = FULL.replace("gmail = \"smtp.example.com\"", "");
    assert_eq!(Config::from_toml(&text).unwrap_err(), ConfigError::MissingKey);
    let text = FULL.replace("[email]", "[mail]");
    assert_eq!(Config::from_toml(&text).unwrap_err(), ConfigError::MissingKey);
}

#[test]
fn invalid_toml_is_an_error() {
    assert_eq!(Config::from_toml("[server\nhost = ").unwrap_err(), ConfigError::Unparsable);
}

#[test]
fn search_settings_are_read() {
    let text = "[elasticsearch]\nhost = \"es\"\nport = 9201\nindex = \"posts\"\n";
    let c = ElasticsearchConfig::from_toml(text).unwrap();
    assert_eq!((c.host.as_str(), c.port, c.index.as_str()), ("es", 9201, "posts"));
    let c = ElasticsearchConfig::from_toml("[elasticsearch]\nhost = 1\nport = \"x\"\nindex = 2\n").unwrap();
    assert_eq!((c.host.as_str(), c.port, c.index.as_str()), ("127.0.0.1", 9200, ""));
    assert_eq!(ElasticsearchConfig::from_toml(FULL).unwrap_err(), ConfigError::MissingKey);
    assert_eq!(ElasticsearchConfig::from_toml("[x").unwrap_err(), ConfigError::Unparsable);
}
