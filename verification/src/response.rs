//! Response messages: classification by length, and checksum validation.

use crate::error::Error;
use vstd::prelude::*;

verus! {

/// The types of response returned by the device, determined by the length of
/// the raw reply alone.
#[derive(Clone, Copy, Debug, PartialEq, Eq, Structural)]
pub enum ResponseKind {
    /// 0 bytes, no response.
    Empty,
    /// 4 bytes, common response.
    General,
    /// 7 bytes, data response.
    Extended,
    /// 18 bytes, response to the "query" command.
    Query,
}

impl ResponseKind {
    /// The number of significant bytes a response of this kind holds.
    pub open spec fn spec_size(self) -> int {
        match self {
            ResponseKind::Empty => 0,
            ResponseKind::General => 4,
            ResponseKind::Extended => 7,
            ResponseKind::Query => 18,
        }
    }
}

/// Response message: a classified, fixed-capacity byte buffer. Only the
/// first [`ResponseKind::spec_size`] bytes of `data` are significant; the
/// rest is unused padding, never exposed by [`Response::bytes`].
#[derive(Clone, Debug, PartialEq)]
pub struct Response {
    pub kind: ResponseKind,
    pub data: [u8; 18],
}

impl Response {
    /// Whether the response's checksum is consistent, given the checksum
    /// byte of the originating command (needed for the general and query
    /// kinds; ignored for the others).
    pub open spec fn spec_checksum_is_valid(self, cmd_cksm: u8) -> bool {
        match self.kind {
            ResponseKind::Empty => true,
            ResponseKind::General => crate::spec_checksum(seq![cmd_cksm, self.data@[2]])
                == self.data@[3],
            ResponseKind::Extended => crate::spec_checksum(self.data@.subrange(1, 6))
                == self.data@[6],
            ResponseKind::Query => (crate::spec_checksum(self.data@.subrange(1, 17)) + cmd_cksm)
                % 256 == self.data@[17],
        }
    }

    /// The kind of the response.
    pub fn kind(&self) -> (r: ResponseKind)
        ensures
            r == self.kind,
    {
        self.kind
    }

    /// The content of the response: exactly as many bytes as the kind
    /// implies.
    pub fn bytes(&self) -> (r: &[u8])
        ensures
            r@ == self.data@.subrange(0, self.kind.spec_size()),
    {
        match self.kind {
            ResponseKind::Empty => &self.data[0..0],
            ResponseKind::General => &self.data[0..4],
            ResponseKind::Extended => &self.data[0..7],
            ResponseKind::Query => &self.data[0..18],
        }
    }

    /// Verify the checksum of the response. The argument is the checksum
    /// byte of the command that caused this reply; it enters the computation
    /// for the general and query kinds, and is ignored for the others.
    pub fn checksum_is_valid(&self, cmd_cksm: u8) -> (r: bool)
        ensures
            r == self.spec_checksum_is_valid(cmd_cksm),
    {
        match self.kind {
            ResponseKind::Empty => true,
            ResponseKind::General => {
                let pair: [u8; 2] = [cmd_cksm, self.data[2]];
                proof {
                    assert(pair@ =~= seq![cmd_cksm, self.data@[2]]);
                }
                crate::checksum(pair.as_slice()) == self.data[3]
            },
            ResponseKind::Extended => crate::checksum(&self.data[1..6]) == self.data[6],
            ResponseKind::Query => {
                let content = crate::checksum(&self.data[1..17]);
                (((content as u16) + (cmd_cksm as u16)) % 256) as u8 == self.data[17]
            },
        }
    }

    /// Classify a raw reply by its length: 0, 4, 7 or 18 bytes give the four
    /// response kinds; any other length is rejected with an invalid-value
    /// error. The checksum of the response is not validated here.
    pub fn classify(value: &[u8]) -> (r: Result<Response, Error>)
        ensures
            (value@.len() == 0 || value@.len() == 4 || value@.len() == 7 || value@.len() == 18)
                <==> r is Ok,
            r matches Ok(resp) ==> resp.kind.spec_size() == value@.len(),
            r matches Ok(resp) ==> resp.data@.subrange(0, value@.len() as int) == value@,
            r matches Ok(resp) ==> forall|i: int|
                value@.len() <= i < 18 ==> resp.data@[i] == 0,
            r matches Err(e) ==> e == Error::InvalidValue(
                "Invalid response length",
                Some(value@.len() as usize),
            ),
    {
        let len = value.len();
        if len == 0 {
            let resp = Response { kind: ResponseKind::Empty, data: [0; 18] };
            proof {
                assert(resp.data@.subrange(0, 0) =~= value@);
            }
            Ok(resp)
        } else if len == 4 {
            let resp = Response {
                kind: ResponseKind::General,
                data: [
                    value[0], value[1], value[2], value[3], 0, 0, 0, 0, 0, 0, 0, 0, 0, 0, 0, 0, 0,
                    0,
                ],
            };
            proof {
                assert(resp.data@.subrange(0, 4) =~= value@);
            }
            Ok(resp)
        } else if len == 7 {
            let resp = Response {
                kind: ResponseKind::Extended,
                data: [
                    value[0], value[1], value[2], value[3], value[4], value[5], value[6], 0, 0, 0,
                    0, 0, 0, 0, 0, 0, 0, 0,
                ],
            };
            proof {
                assert(resp.data@.subrange(0, 7) =~= value@);
            }
            Ok(resp)
        } else if len == 18 {
            let resp = Response {
                kind: ResponseKind::Query,
                data: [
                    value[0], value[1], value[2], value[3], value[4], value[5], value[6], value[7],
                    value[8], value[9], value[10], value[11], value[12], value[13], value[14],
                    value[15], value[16], value[17],
                ],
            };
            proof {
                assert(resp.data@.subrange(0, 18) =~= value@);
            }
            Ok(resp)
        } else {
            Err(Error::InvalidValue("Invalid response length", Some(len)))
        }
    }
}

} // verus!
