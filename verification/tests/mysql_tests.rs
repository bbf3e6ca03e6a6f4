use app_lib::config::{Config, Storage};
use app_lib::controller::ping::{IPing, Ping};
use app_lib::mysql::{IMysql, Mysql, MysqlBackend, MysqlMock, MysqlProvider};

#[test]
fn mock_storage_gives_an_empty_mock() {
    let mut config = Config::default();
    config.storage = Storage::Mock;
    match MysqlProvider.provide(&config) {
        MysqlBackend::Mock(m) => assert!(m.pings.is_empty()),
        MysqlBackend::Mysql(_) => panic!("expected the mock"),
    }
}

#[test]
fn mysql_storage_gives_a_client_with_its_settings() {
    let config = Config::default();
    match MysqlProvider.provide(&config) {
        MysqlBackend::Mysql(m) => {
            assert_eq!(m.config.username, "mysql");
            assert_eq!(m.config.host, "localhost");
            assert_eq!(m.config.port, 3306);
            assert_eq!(m.config.db_name, "db");
        }
        MysqlBackend::Mock(_) => panic!("expected mysql"),
    }
}

#[test]
fn backends_answer_pings() {
    assert!(MysqlMock::new().ping().is_ok());
    let settings = match Config::default().storage {
        Storage::Mysql(m) => m,
        Storage::Mock => unreachable!(),
    };
    let db = Mysql::new(settings);
    assert_eq!(db.config.password, "mysql");
    assert!(db.ping().is_ok());
    assert!(MysqlBackend::Mock(MysqlMock::new()).ping().is_ok());
}

#[test]
fn node_ping_answers_through_storage() {
    let p = Ping::new(MysqlBackend::Mock(MysqlMock::new()));
    assert!(p.ping().is_ok());
    let p = Ping::new(MysqlProvider.provide(&Config::default()));
    assert!(p.ping().is_ok());
}
