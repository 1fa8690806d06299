//! Framing of the BMD remote protocol: requests are sent as text, and a reply is the bytes
//! between a `&` and the next `#`, at most one message buffer long.
use vstd::prelude::*;

use crate::firmware_file::ihex::{find_byte, find_byte_from};
use crate::serial::remote::{REMOTE_EOM, REMOTE_MAX_MSG_SIZE, REMOTE_RESP};

verus! {

/// The request that starts a remote protocol session.
pub const REMOTE_START: &'static str = "+#!GA#";

/// The request for the probe's remote protocol version.
pub const REMOTE_HL_CHECK: &'static str = "!HC#";

/// The reply found at the front of the bytes a probe sent, and how many bytes it used up: the
/// bytes after the first `&` up to the next `#` (which is used up too), or the first message
/// buffer's worth of them where no `#` comes that soon; `None` while more bytes are needed.
pub open spec fn spec_scan_response(s: Seq<u8>) -> Option<(Seq<u8>, int)> {
    match find_byte_from(s, 0, REMOTE_RESP) {
        None => None,
        Some(a) => {
            let start = a + 1;
            match find_byte_from(s, start, REMOTE_EOM) {
                Some(e) if e - start < REMOTE_MAX_MSG_SIZE => Some((s.subrange(start, e), e + 1)),
                _ => if s.len() - start >= REMOTE_MAX_MSG_SIZE {
                    Some((s.subrange(start, start + REMOTE_MAX_MSG_SIZE), start + REMOTE_MAX_MSG_SIZE))
                } else {
                    None
                },
            }
        },
    }
}

/// Finds the reply at the front of the bytes a probe sent (see [`spec_scan_response`]).
pub fn scan_response(s: &[u8]) -> (r: Option<(Vec<u8>, usize)>)
    ensures
        match r {
            Some((reply, used)) => spec_scan_response(s@) == Some((reply@, used as int)),
            None => spec_scan_response(s@) is None,
        },
{
    let a = match find_byte(s, 0, REMOTE_RESP) {
        None => return None,
        Some(a) => a,
    };
    assert(a < s.len());
    let start = a + 1;
    let end_marker = find_byte(s, start, REMOTE_EOM);
    let (end, used) = match end_marker {
        Some(e) => {
            if e - start < REMOTE_MAX_MSG_SIZE {
                (e, e + 1)
            } else {
                (start + REMOTE_MAX_MSG_SIZE, start + REMOTE_MAX_MSG_SIZE)
            }
        },
        None => {
            if s.len() - start >= REMOTE_MAX_MSG_SIZE {
                (start + REMOTE_MAX_MSG_SIZE, start + REMOTE_MAX_MSG_SIZE)
            } else {
                return None;
            }
        },
    };
    let reply = vstd::slice::slice_to_vec(&s[start..end]);
    Some((reply, used))
}

} // verus!
