//! The network-layer-message (RPDU) decoder: the message-type byte selects
//! one of the named router messages; the router-discovery messages carry
//! 16-bit destination network numbers (DNETs) after the type byte.

use crate::wire::be16_at;
use crate::wire::read_be16;
use crate::Error;
use vstd::prelude::*;
use vstd::slice::slice_subrange;

verus! {

/// A destination network number.
pub type DNET = u16;

/// A lazy, restartable walk over the 16-bit DNET values packed into a byte
/// buffer: each advance consumes exactly two bytes and stops when fewer than
/// two remain.
pub struct DNETs<'a> {
    bytes: &'a [u8],
}

impl<'a> View for DNETs<'a> {
    type V = Seq<u8>;

    closed spec fn view(&self) -> Seq<u8> {
        self.bytes@
    }
}

impl<'a> DNETs<'a> {
    /// Starts a walk over the DNET values packed into `bytes`.
    pub fn new(bytes: &'a [u8]) -> (r: DNETs<'a>)
        ensures
            r@ == bytes@,
    {
        DNETs { bytes }
    }

    /// The next DNET value: the big-endian pair at the front of the
    /// remaining bytes, or `None` once fewer than two bytes remain (the
    /// remainder is then left as it is).
    pub fn next(&mut self) -> (r: Option<DNET>)
        ensures
            old(self)@.len() < 2 ==> r is None && final(self)@ == old(self)@,
            old(self)@.len() >= 2 ==> r == Some(be16_at(old(self)@, 0)) && final(self)@ == old(
                self,
            )@.skip(2),
    {
        if self.bytes.len() < 2 {
            None
        } else {
            let dnet = read_be16(self.bytes, 0);
            self.bytes = slice_subrange(self.bytes, 2, self.bytes.len());
            Some(dnet)
        }
    }
}

/// One decoded network-layer message. The router-discovery variants carry
/// the DNETs that follow the type byte; `Reserved` covers type bytes 0x12
/// through 0x7F and `Proprietary` the rest.
pub enum RPDU<'a> {
    WhoIsRouterToNetwork(Option<DNET>),
    IAmRouterToNetwork(DNETs<'a>),
    ICouldBeRouterToNetwork(DNET),
    RejectMessageToNetwork,
    RouterBusyToNetwork,
    RouterAvailableToNetwork,
    InitializeRoutingTable,
    InitializeRoutingTableACK,
    EstablishConnectionToNetwork,
    DisconnectConnectionToNetwork,
    ChallengeRequest,
    SecurityPayload,
    SecurityResponse,
    RequestKeyUpdate,
    UpdateKeySet,
    UpdateDistributionKey,
    RequestMasterKey,
    SetMasterKey,
    Reserved,
    Proprietary,
}

/// Whether a network-layer message decodes from `b`: it must be non-empty,
/// and an I-Could-Be-Router-To-Network message must carry its DNET.
pub open spec fn rpdu_decode_ok(b: Seq<u8>) -> bool {
    b.len() >= 1 && (b[0] == 0x02 ==> b.len() >= 3)
}

/// Whether `v` is the message encoded in `b`: the variant the type byte
/// selects, with the DNET values that follow the type byte. A Who-Is-Router
/// message is tolerant of an absent DNET; an I-Am-Router message carries all
/// the bytes after the type byte as its DNET walk. Meaningful when
/// `rpdu_decode_ok(b)`.
pub open spec fn rpdu_matches(v: RPDU, b: Seq<u8>) -> bool {
    if b[0] == 0x00 {
        v matches RPDU::WhoIsRouterToNetwork(d) && d == (if b.len() >= 3 {
            Some(be16_at(b, 1))
        } else {
            None
        })
    } else if b[0] == 0x01 {
        v matches RPDU::IAmRouterToNetwork(ds) && ds@ == b.skip(1)
    } else if b[0] == 0x02 {
        v matches RPDU::ICouldBeRouterToNetwork(d) && d == be16_at(b, 1)
    } else if b[0] == 0x03 {
        v is RejectMessageToNetwork
    } else if b[0] == 0x04 {
        v is RouterBusyToNetwork
    } else if b[0] == 0x05 {
        v is RouterAvailableToNetwork
    } else if b[0] == 0x06 {
        v is InitializeRoutingTable
    } else if b[0] == 0x07 {
        v is InitializeRoutingTableACK
    } else if b[0] == 0x08 {
        v is EstablishConnectionToNetwork
    } else if b[0] == 0x09 {
        v is DisconnectConnectionToNetwork
    } else if b[0] == 0x0A {
        v is ChallengeRequest
    } else if b[0] == 0x0B {
        v is SecurityPayload
    } else if b[0] == 0x0C {
        v is SecurityResponse
    } else if b[0] == 0x0D {
        v is RequestKeyUpdate
    } else if b[0] == 0x0E {
        v is UpdateKeySet
    } else if b[0] == 0x0F {
        v is UpdateDistributionKey
    } else if b[0] == 0x10 {
        v is RequestMasterKey
    } else if b[0] == 0x11 {
        v is SetMasterKey
    } else if b[0] <= 0x7F {
        v is Reserved
    } else {
        v is Proprietary
    }
}

/// Decodes the DNET that follows the type byte of a router-discovery
/// message.
fn try_parse_dnet(b: &[u8]) -> (r: Result<DNET, Error>)
    ensures
        r is Ok <==> b@.len() >= 2,
        r matches Ok(d) ==> d == be16_at(b@, 0),
        r matches Err(e) ==> e.is_length(),
{
    if b.len() < 2 {
        Err(Error::Length("insufficient size for DNET"))
    } else {
        Ok(read_be16(b, 0))
    }
}

/// Decodes a network-layer message: the type byte selects the variant, and
/// the router-discovery variants take the DNET values that follow it. An
/// empty buffer, or an I-Could-Be-Router message without its DNET, is a
/// length error.
pub fn parse_rpdu<'a>(bytes: &'a [u8]) -> (r: Result<RPDU<'a>, Error>)
    ensures
        r is Ok <==> rpdu_decode_ok(bytes@),
        r matches Ok(v) ==> rpdu_matches(v, bytes@),
        r matches Err(e) ==> e.is_length(),
{
    if bytes.is_empty() {
        return Err(Error::Length("no rpdu data"));
    }
    let t = bytes[0];
    let rest = slice_subrange(bytes, 1, bytes.len());
    if t == 0x00 {
        Ok(
            RPDU::WhoIsRouterToNetwork(
                match try_parse_dnet(rest) {
                    Ok(dnet) => Some(dnet),
                    Err(_) => None,
                },
            ),
        )
    } else if t == 0x01 {
        Ok(RPDU::IAmRouterToNetwork(DNETs::new(rest)))
    } else if t == 0x02 {
        match try_parse_dnet(rest) {
            Ok(dnet) => Ok(RPDU::ICouldBeRouterToNetwork(dnet)),
            Err(e) => Err(e),
        }
    } else if t == 0x03 {
        Ok(RPDU::RejectMessageToNetwork)
    } else if t == 0x04 {
        Ok(RPDU::RouterBusyToNetwork)
    } else if t == 0x05 {
        Ok(RPDU::RouterAvailableToNetwork)
    } else if t == 0x06 {
        Ok(RPDU::InitializeRoutingTable)
    } else if t == 0x07 {
        Ok(RPDU::InitializeRoutingTableACK)
    } else if t == 0x08 {
        Ok(RPDU::EstablishConnectionToNetwork)
    } else if t == 0x09 {
        Ok(RPDU::DisconnectConnectionToNetwork)
    } else if t == 0x0A {
        Ok(RPDU::ChallengeRequest)
    } else if t == 0x0B {
        Ok(RPDU::SecurityPayload)
    } else if t == 0x0C {
        Ok(RPDU::SecurityResponse)
    } else if t == 0x0D {
        Ok(RPDU::RequestKeyUpdate)
    } else if t == 0x0E {
        Ok(RPDU::UpdateKeySet)
    } else if t == 0x0F {
        Ok(RPDU::UpdateDistributionKey)
    } else if t == 0x10 {
        Ok(RPDU::RequestMasterKey)
    } else if t == 0x11 {
        Ok(RPDU::SetMasterKey)
    } else if t <= 0x7F {
        Ok(RPDU::Reserved)
    } else {
        Ok(RPDU::Proprietary)
    }
}

} // verus!
