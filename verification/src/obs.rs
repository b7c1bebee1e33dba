//! OBS WebSocket decisions: interpreting the handshake opcodes, building
//! request ids, and judging responses. The caller owns the socket and the
//! JSON; it hands in the plain fields it read and performs what comes
//! back.

use vstd::prelude::*;
use crate::strutil::{spec_dec_str, u64_to_string};
use crate::encoding::{generate_obs_auth, spec_obs_auth};

verus! {

/// The cached OBS connection state.
#[derive(Debug, Clone)]
pub struct ObsState {
    pub connected: bool,
    pub streaming: bool,
    pub recording: bool,
    pub current_scene: String,
    pub last_error: String,
}

/// A disconnected cache with everything cleared.
pub fn obs_state_start() -> (r: ObsState)
    ensures
        !r.connected,
        !r.streaming,
        !r.recording,
        r.current_scene@ == Seq::<char>::empty(),
        r.last_error@ == Seq::<char>::empty(),
{
    ObsState {
        connected: false,
        streaming: false,
        recording: false,
        current_scene: String::new(),
        last_error: String::new(),
    }
}

/// The error text for an unexpected Hello opcode.
pub open spec fn spec_hello_error(op: u8) -> Seq<char> {
    "Expected Hello (op=0), got op="@ + spec_dec_str(op as nat)
}

/// What the Identify message answers a Hello with: the authentication
/// string when the Hello carried a challenge and a password is at hand,
/// nothing otherwise; a Hello with the wrong opcode is an error.
pub open spec fn spec_identify_auth(
    op: u8,
    has_auth: bool,
    has_password: bool,
    password: Seq<char>,
    challenge: Seq<char>,
    salt: Seq<char>,
) -> Result<Option<Seq<char>>, Seq<char>> {
    if op != 0 {
        Err(spec_hello_error(op))
    } else if has_auth && has_password {
        Ok(Some(spec_obs_auth(password, challenge, salt)))
    } else {
        Ok(None)
    }
}

/// Answers a Hello message: checks the opcode and, when the Hello carried
/// an authentication challenge and a password is at hand, computes the
/// authentication string for the Identify message.
pub fn obs_identify_auth(
    op: u8,
    has_auth: bool,
    has_password: bool,
    password: &str,
    challenge: &str,
    salt: &str,
) -> (r: Result<Option<String>, String>)
    ensures
        match r {
            Ok(Some(s)) => spec_identify_auth(
                op,
                has_auth,
                has_password,
                password@,
                challenge@,
                salt@,
            ) == Ok::<Option<Seq<char>>, Seq<char>>(Some(s@)),
            Ok(None) => spec_identify_auth(op, has_auth, has_password, password@, challenge@, salt@)
                == Ok::<Option<Seq<char>>, Seq<char>>(None::<Seq<char>>),
            Err(e) => spec_identify_auth(op, has_auth, has_password, password@, challenge@, salt@)
                == Err::<Option<Seq<char>>, Seq<char>>(e@),
        },
{
    if op != 0 {
        let mut e = String::from_str("Expected Hello (op=0), got op=");
        e.append(u64_to_string(op as u64).as_str());
        proof {
            assert(e@ =~= spec_hello_error(op));
        }
        return Err(e);
    }
    if has_auth && has_password {
        Ok(Some(generate_obs_auth(password, challenge, salt)))
    } else {
        Ok(None)
    }
}

/// The error text for a failed authentication.
pub open spec fn spec_identified_error(op: u8) -> Seq<char> {
    "Authentication failed (op="@ + spec_dec_str(op as nat) + ")"@
}

/// Judges the message after Identify: opcode 2 means authenticated.
pub fn obs_check_identified(op: u8) -> (r: Result<(), String>)
    ensures
        r is Ok <==> op == 2,
        r matches Err(e) ==> e@ == spec_identified_error(op),
{
    if op == 2 {
        Ok(())
    } else {
        let mut e = String::from_str("Authentication failed (op=");
        e.append(u64_to_string(op as u64).as_str());
        e.append(")");
        proof {
            reveal_strlit(")");
            assert(e@ =~= spec_identified_error(op));
        }
        Err(e)
    }
}

/// A request id: the given prefix and the epoch second.
pub fn obs_request_id(prefix: &str, now: u64) -> (r: String)
    ensures
        r@ == prefix@ + spec_dec_str(now as nat),
{
    let mut s = prefix.to_owned();
    s.append(u64_to_string(now).as_str());
    s
}

/// How a response message is judged: only opcode 7 with a request status
/// counts; its result flag decides between success and the comment (or
/// `Unknown error` without one); anything else is an invalid response.
pub open spec fn spec_response_outcome(
    op: u8,
    has_status: bool,
    result_ok: bool,
    has_comment: bool,
    comment: Seq<char>,
) -> Result<(), Seq<char>> {
    if op == 7 && has_status {
        if result_ok {
            Ok(())
        } else if has_comment {
            Err(comment)
        } else {
            Err("Unknown error"@)
        }
    } else {
        Err("Invalid response"@)
    }
}

/// Judges a response message from its plain fields: opcode, whether a
/// request status was present, its result flag, and its comment.
pub fn obs_response_outcome(
    op: u8,
    has_status: bool,
    result_ok: bool,
    has_comment: bool,
    comment: String,
) -> (r: Result<(), String>)
    ensures
        match r {
            Ok(u) => spec_response_outcome(op, has_status, result_ok, has_comment, comment@)
                is Ok,
            Err(e) => spec_response_outcome(op, has_status, result_ok, has_comment, comment@)
                == Err::<(), Seq<char>>(e@),
        },
{
    if op == 7 && has_status {
        if result_ok {
            Ok(())
        } else if has_comment {
            Err(comment)
        } else {
            Err(String::from_str("Unknown error"))
        }
    } else {
        Err(String::from_str("Invalid response"))
    }
}

} // verus!
