pub mod inner;

use vstd::prelude::*;
use vstd::string::*;

use crate::config::{Config, IConfig};
use crate::util::consts::LOCALHOST;
use crate::util::decimal::{all_digits, decimal, decimal_value, lemma_decimal_roundtrip, push_decimal};
use crate::util::errors::{Error, ErrorKind};

verus! {

/// The gRPC server of the node.
#[derive(Debug)]
pub struct GrpcService {
    pub port: u16,
    pub log: bool,
}

/// The address on which the server listens: the local host and the port.
pub open spec fn listen_address_of(port: u16) -> Seq<char> {
    LOCALHOST@ + ":"@ + decimal(port as nat)
}

/// The listen address is the local host, a colon, and digits that read back
/// as the port.
pub proof fn lemma_listen_address_port(port: u16)
    ensures
        ({
            let a = listen_address_of(port);
            let digits = a.subrange(LOCALHOST@.len() + 1int, a.len() as int);
            &&& a.subrange(0, LOCALHOST@.len() as int) == LOCALHOST@
            &&& a[LOCALHOST@.len() as int] == ':'
            &&& all_digits(digits)
            &&& digits.len() >= 1
            &&& decimal_value(digits) == port
        }),
{
    reveal_strlit(":");
    lemma_decimal_roundtrip(port as nat);
    let a = listen_address_of(port);
    assert(a.subrange(LOCALHOST@.len() + 1int, a.len() as int) =~= decimal(port as nat));
    assert(a.subrange(0, LOCALHOST@.len() as int) =~= LOCALHOST@);
}

impl GrpcService {
    /// The address on which the server listens.
    pub fn listen_address(&self) -> (a: String)
        ensures
            a@ == listen_address_of(self.port),
    {
        let mut a = String::from_str(LOCALHOST).concat(":");
        push_decimal(&mut a, self.port);
        a
    }

    /// The error raised when the listen address does not parse, given the
    /// parser's description of the problem.
    pub fn address_error(detail: String) -> (e: Error)
        ensures
            e.kind matches ErrorKind::Generic(m) && m@ == "parsing grpc address error: "@ + detail@,
    {
        Error::new(ErrorKind::Generic(String::from_str("parsing grpc address error: ").concat(detail.as_str())))
    }
}

/// Builds the gRPC server from the configuration.
pub struct GrpcServiceProvider;

impl GrpcServiceProvider {
    /// The server on the configured port, logging when handlers log.
    pub fn invoke(&self, config: &Config) -> (s: GrpcService)
        ensures
            s.port == config.grpc.port,
            s.log == config.log.handler,
    {
        let port = config.grpc().port;
        let log = config.log().handler;
        GrpcService { port, log }
    }
}

} // verus!
