use app_lib::config::{Config, Grpc, Log};
use app_lib::handler::grpc::inner::{ping_remote_reply, ping_reply};
use app_lib::handler::grpc::{GrpcService, GrpcServiceProvider};
use app_lib::util::errors::{Error, ErrorKind};

#[test]
fn listen_address_of_default_port() {
    let s = GrpcServiceProvider.invoke(&Config::default());
    assert_eq!(s.port, 2000);
    assert!(!s.log);
    assert_eq!(s.listen_address(), "127.0.0.1:2000");
}

#[test]
fn provider_takes_port_and_handler_logging() {
    let mut c = Config::default();
    c.grpc = Grpc { port: 50051 };
    c.log = Log { handler: true, controller: false };
    let s = GrpcServiceProvider.invoke(&c);
    assert_eq!(s.port, 50051);
    assert!(s.log);
}

#[test]
fn listen_address_edge_ports() {
    let cases = [(0u16, "127.0.0.1:0"), (7, "127.0.0.1:7"), (10, "127.0.0.1:10"), (65535, "127.0.0.1:65535")];
    for (port, text) in cases {
        assert_eq!(GrpcService { port, log: false }.listen_address(), text);
    }
}

#[test]
fn listen_address_port_reads_back() {
    for port in [0u16, 1, 9, 10, 99, 100, 1000, 3306, 9999, 10000, 65534, 65535] {
        let a = GrpcService { port, log: false }.listen_address();
        let (host, digits) = a.rsplit_once(':').unwrap();
        assert_eq!(host, "127.0.0.1");
        assert!(digits.chars().all(|c| c.is_ascii_digit()));
        assert_eq!(digits.parse::<u16>().unwrap(), port);
        assert_eq!(digits, port.to_string());
    }
}

#[test]
fn address_error_text() {
    let e = GrpcService::address_error("invalid socket address syntax".to_string());
    match &e.kind {
        ErrorKind::Generic(m) => assert_eq!(m, "parsing grpc address error: invalid socket address syntax"),
        _ => panic!("expected a generic error"),
    }
}

#[test]
fn ping_replies() {
    assert!(ping_reply(&Ok(())).is_ok());
    let failed: Result<(), Error> = Err(Error::new(ErrorKind::UnknownError));
    assert_eq!(ping_reply(&failed).unwrap_err().message, "ping failed");
    assert!(ping_remote_reply(&Ok(())).is_ok());
    assert_eq!(ping_remote_reply(&failed).unwrap_err().message, "remote ping failed");
}
