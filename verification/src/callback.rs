//! The per-message decision state machine of the event callback.
//!
//! Each delivered message is one self-contained transition: dispatch on the
//! message kind, filter on the broadcast subtype, decode the payload state,
//! apply the policy, and emit the diagnostic lines and the one possible
//! action. The callback keeps no state between invocations; the platform
//! plumbing only performs what the plan returned here says.

use crate::policy::{spec_decide, Action};
use vstd::prelude::*;
use vstd::string::*;

verus! {

/// The message identifier of a power broadcast.
pub const WM_POWERBROADCAST: u32 = 0x218;

/// The broadcast subtype that carries a power-setting payload.
pub const PBT_POWERSETTINGCHANGE: usize = 0x8013;

/// The little-endian 32-bit value in the first four bytes of `b`.
pub open spec fn le32(b: Seq<u8>) -> u32
    recommends
        b.len() >= 4,
{
    (b[0] as u32) | (b[1] as u32) << 8 | (b[2] as u32) << 16 | (b[3] as u32) << 24
}

/// Interprets the first four bytes of a payload's data region as the
/// unsigned 32-bit state value; a region shorter than four bytes does not
/// decode.
pub fn decode_state(data: &Vec<u8>) -> (r: Option<u32>)
    ensures
        data@.len() >= 4 ==> r == Some(le32(data@)),
        data@.len() < 4 ==> r is None,
{
    if data.len() >= 4 {
        let state: u32 = (data[0] as u32) | (data[1] as u32) << 8 | (data[2] as u32) << 16 | (
        data[3] as u32) << 24;
        Some(state)
    } else {
        None
    }
}

/// What the callback tells the platform plumbing to do for one message.
pub struct CallbackPlan {
    /// Hand the message unchanged to the platform's default handler (and
    /// return its result) instead of reporting it handled.
    pub forward_default: bool,
    /// Invoke the session-lock primitive, then log its outcome line.
    pub invoke_lock: bool,
    /// Diagnostic lines to append, in order, before any lock attempt.
    pub log_lines: Vec<String>,
}

/// The views of a list of log lines.
pub open spec fn line_views(lines: Seq<String>) -> Seq<Seq<char>> {
    lines.map_values(|s: String| s@)
}

/// The payload bytes handed over with a message, if any.
pub open spec fn payload_view(data: Option<Vec<u8>>) -> Option<Seq<u8>> {
    match data {
        Some(d) => Some(d@),
        None => None,
    }
}

/// Whether one message leads to a lock attempt: a power broadcast of the
/// power-setting-changed subtype whose payload decodes to the triggering
/// state `0`, in a session that is not remote.
pub open spec fn spec_invoke_lock(
    msg: u32,
    wparam: usize,
    data: Option<Seq<u8>>,
    is_remote: bool,
) -> bool {
    msg == WM_POWERBROADCAST && wparam == PBT_POWERSETTINGCHANGE && data is Some
        && data->0.len() >= 4 && spec_decide(le32(data->0), is_remote) == Action::Lock
}

/// The diagnostic lines one message produces, in order. Non-broadcast
/// messages log nothing; a broadcast of another subtype logs only its
/// arrival; a decodable power-setting change logs its state and the branch
/// taken.
pub open spec fn spec_log_lines(
    msg: u32,
    wparam: usize,
    data: Option<Seq<u8>>,
    is_remote: bool,
) -> Seq<Seq<char>> {
    if msg != WM_POWERBROADCAST {
        Seq::<Seq<char>>::empty()
    } else if wparam != PBT_POWERSETTINGCHANGE {
        seq!["Received WM_POWERBROADCAST"@]
    } else if data is None || data->0.len() < 4 {
        seq!["Received WM_POWERBROADCAST"@, "Received PBT_POWERSETTINGCHANGE"@]
    } else {
        let state = le32(data->0);
        seq![
            "Received WM_POWERBROADCAST"@,
            "Received PBT_POWERSETTINGCHANGE"@,
            "Power setting state: "@ + crate::decimal::dec_digits(state as int),
            match spec_decide(state, is_remote) {
                Action::Lock => "Attempting to lock workstation"@,
                Action::IgnoreRemote => "Ignoring, session is remote"@,
                Action::IgnoreState => "Ignoring non-zero state"@,
            },
        ]
    }
}

/// One transition of the callback state machine: from the message
/// identifier, the broadcast subtype word, the payload data region (read
/// only for the power-setting-changed subtype) and a fresh remote-session
/// query, to everything the callback does with that message.
pub fn plan_message(msg: u32, wparam: usize, data: Option<Vec<u8>>, is_remote: bool) -> (r:
    CallbackPlan)
    ensures
        r.forward_default == (msg != WM_POWERBROADCAST),
        r.invoke_lock == spec_invoke_lock(msg, wparam, payload_view(data), is_remote),
        line_views(r.log_lines@) == spec_log_lines(msg, wparam, payload_view(data), is_remote),
{
    let mut log_lines: Vec<String> = Vec::new();
    if msg != WM_POWERBROADCAST {
        proof {
            assert(line_views(log_lines@) =~= spec_log_lines(
                msg,
                wparam,
                payload_view(data),
                is_remote,
            ));
        }
        return CallbackPlan { forward_default: true, invoke_lock: false, log_lines };
    }
    log_lines.push(String::from_str("Received WM_POWERBROADCAST"));
    if wparam != PBT_POWERSETTINGCHANGE {
        proof {
            assert(line_views(log_lines@) =~= spec_log_lines(
                msg,
                wparam,
                payload_view(data),
                is_remote,
            ));
        }
        return CallbackPlan { forward_default: false, invoke_lock: false, log_lines };
    }
    log_lines.push(String::from_str("Received PBT_POWERSETTINGCHANGE"));
    let decoded = match &data {
        Some(d) => decode_state(d),
        None => None,
    };
    match decoded {
        None => {
            proof {
                assert(line_views(log_lines@) =~= spec_log_lines(
                    msg,
                    wparam,
                    payload_view(data),
                    is_remote,
                ));
            }
            CallbackPlan { forward_default: false, invoke_lock: false, log_lines }
        },
        Some(state) => {
            let state_line = String::from_str("Power setting state: ").concat(
                crate::decimal::u32_to_decimal(state).as_str(),
            );
            log_lines.push(state_line);
            let action = crate::policy::decide(state, is_remote);
            let branch_line = match action {
                Action::Lock => String::from_str("Attempting to lock workstation"),
                Action::IgnoreRemote => String::from_str("Ignoring, session is remote"),
                Action::IgnoreState => String::from_str("Ignoring non-zero state"),
            };
            log_lines.push(branch_line);
            let invoke_lock = match action {
                Action::Lock => true,
                _ => false,
            };
            proof {
                assert(line_views(log_lines@) =~= spec_log_lines(
                    msg,
                    wparam,
                    payload_view(data),
                    is_remote,
                ));
            }
            CallbackPlan { forward_default: false, invoke_lock, log_lines }
        },
    }
}

/// The line logged after a lock attempt, from the boolean the lock
/// primitive returned.
pub fn lock_outcome_line(success: bool) -> (r: String)
    ensures
        success ==> r@ == "Workstation locked successfully"@,
        !success ==> r@ == "Failed to lock workstation"@,
{
    if success {
        String::from_str("Workstation locked successfully")
    } else {
        String::from_str("Failed to lock workstation")
    }
}

} // verus!
