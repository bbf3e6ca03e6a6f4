use vstd::prelude::*;

use libp2p::identity::ParseError;
use libp2p::PeerId;

use crate::util::decimal::decimal;
use crate::util::errors::{Error, ErrorKind};

verus! {

#[verifier::external_type_specification]
#[verifier::external_body]
pub struct ExPeerId(PeerId);

#[verifier::external_type_specification]
#[verifier::external_body]
pub struct ExPeerIdParseError(ParseError);

/// What `<libp2p::PeerId as FromStr>::from_str` gives for a text: base-58
/// decoding, then reading a multihash whose code peer ids use. It depends on
/// the text alone.
pub uninterp spec fn peer_id_parse(text: Seq<char>) -> Result<PeerId, ParseError>;

/// The text that a libp2p peer-id parse error displays.
pub uninterp spec fn parse_error_display(e: ParseError) -> Seq<char>;

/// Whether libp2p reads the text as a peer id.
pub open spec fn is_peer_id_text(text: Seq<char>) -> bool {
    peer_id_parse(text) is Ok
}

/// The peer id that libp2p reads from a text (meaningful where
/// [`is_peer_id_text`] holds).
pub open spec fn peer_id_of(text: Seq<char>) -> PeerId {
    peer_id_parse(text)->Ok_0
}

/// The text of the error that libp2p gives for a text it does not read as a
/// peer id (meaningful where [`is_peer_id_text`] fails).
pub open spec fn peer_id_error_text(text: Seq<char>) -> Seq<char> {
    parse_error_display(peer_id_parse(text)->Err_0)
}

/// The texts that a libp2p peer-id parse error displays: a base-58 decoding
/// failure with its detail, a multihash code that peer ids do not use, or a
/// malformed multihash.
pub open spec fn is_parse_error_text(t: Seq<char>) -> bool {
    ||| (exists|detail: Seq<char>| t == "base-58 decode error: "@ + detail)
    ||| (exists|code: u64| t == "unsupported multihash code '"@ + decimal(code as nat) + "'"@)
    ||| t == "invalid multihash"@
}

/// Calls `<libp2p::PeerId as FromStr>::from_str`. Claimed: the result is
/// what [`peer_id_parse`] names for the text, the text alone deciding it.
#[verifier::external_body]
fn parse_peer_id(text: &str) -> (r: Result<PeerId, ParseError>)
    ensures
        r == peer_id_parse(text@),
{
    text.parse::<PeerId>()
}

/// Calls `ToString::to_string` on a libp2p parse error. Claimed: the text is
/// what [`parse_error_display`] names for the error, and it has one of the
/// three forms that the error's `Display` writes ([`is_parse_error_text`]).
#[verifier::external_body]
fn parse_error_text(e: &ParseError) -> (t: String)
    ensures
        t@ == parse_error_display(*e),
        is_parse_error_text(t@),
{
    e.to_string()
}

/// Turns texts into network identities.
pub struct Mapper {}

impl Mapper {
    /// The peer id that the text denotes; a `Generic` error with libp2p's
    /// description when libp2p does not read it as one.
    pub fn peer_id_from_string(&self, peer_id: String) -> (r: Result<PeerId, Error>)
        ensures
            r is Ok <==> is_peer_id_text(peer_id@),
            r matches Ok(p) ==> p == peer_id_of(peer_id@),
            r matches Err(e) ==> (e.kind matches ErrorKind::Generic(m) && m@ == peer_id_error_text(
                peer_id@,
            ) && is_parse_error_text(m@)),
    {
        match parse_peer_id(peer_id.as_str()) {
            Ok(p) => Ok(p),
            Err(e) => Err(Error::new(ErrorKind::Generic(parse_error_text(&e)))),
        }
    }
}

} // verus!
