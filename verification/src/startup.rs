//! Startup decisions: singleton acquisition, all-or-nothing notification
//! subscription, log-path resolution, and the dispatch-loop gate.
//!
//! Each function here turns plain values reported by the platform calls into
//! the decision the agent acts on; the calls themselves stay outside the
//! library.

use vstd::prelude::*;
use vstd::string::*;

verus! {

/// The platform's code for "the named object already existed".
pub const ERROR_ALREADY_EXISTS_CODE: u32 = 183;

/// Why startup failed.
#[derive(Clone, Copy, Debug, PartialEq, Eq, Structural)]
pub enum StartupError {
    /// Another instance already holds the singleton object: an expected
    /// outcome, distinct from every other failure.
    AlreadyRunning,
    /// Any other platform failure, carrying the reported error code.
    OsError(u32),
}

/// Outcome of a singleton acquisition, given whether the named object was
/// created or opened (`create_ok`) and the error code the platform reported
/// alongside.
pub open spec fn spec_classify_singleton(create_ok: bool, last_error: u32) -> Result<
    (),
    StartupError,
> {
    if !create_ok {
        Err(StartupError::OsError(last_error))
    } else if last_error == ERROR_ALREADY_EXISTS_CODE {
        Err(StartupError::AlreadyRunning)
    } else {
        Ok(())
    }
}

/// Classifies the result of creating the named exclusive object: a create
/// that found a pre-existing holder is `AlreadyRunning`; any failed create
/// is an opaque platform error; otherwise this process is the first holder.
pub fn classify_singleton(create_ok: bool, last_error: u32) -> (r: Result<(), StartupError>)
    ensures
        r == spec_classify_singleton(create_ok, last_error),
{
    if !create_ok {
        Err(StartupError::OsError(last_error))
    } else if last_error == ERROR_ALREADY_EXISTS_CODE {
        Err(StartupError::AlreadyRunning)
    } else {
        Ok(())
    }
}

/// A second acquisition of a held singleton — the platform reports a
/// successful open with the already-exists code — is always classified
/// `AlreadyRunning`: never a generic error, never a silent success.
pub proof fn lemma_second_acquisition_detected(last_error: u32)
    requires
        last_error == ERROR_ALREADY_EXISTS_CODE,
    ensures
        spec_classify_singleton(true, last_error) == Err::<(), StartupError>(
            StartupError::AlreadyRunning,
        ),
{
}

/// The well-known machine-wide identifier of the singleton object.
pub fn singleton_identifier() -> (r: String)
    ensures
        r@ == "Global\\{3DA16D16-5F02-4CFD-8C43-11C31127889D}"@,
{
    String::from_str("Global\\{3DA16D16-5F02-4CFD-8C43-11C31127889D}")
}

/// Combined outcome of the two notification subscriptions: success only if
/// both succeeded; otherwise the first failure's code, as an opaque error.
pub open spec fn spec_combine_subscriptions(
    first: Result<(), u32>,
    second: Result<(), u32>,
) -> Result<(), StartupError> {
    match first {
        Err(e) => Err(StartupError::OsError(e)),
        Ok(()) => match second {
            Err(e) => Err(StartupError::OsError(e)),
            Ok(()) => Ok(()),
        },
    }
}

/// Folds the two subscription attempts into one startup outcome. Partial
/// subscription is not a supported state: the caller must not enter the
/// dispatch loop unless this returns `Ok`.
pub fn combine_subscriptions(first: Result<(), u32>, second: Result<(), u32>) -> (r: Result<
    (),
    StartupError,
>)
    ensures
        r == spec_combine_subscriptions(first, second),
{
    match first {
        Err(e) => Err(StartupError::OsError(e)),
        Ok(()) => match second {
            Err(e) => Err(StartupError::OsError(e)),
            Ok(()) => Ok(()),
        },
    }
}

/// Subscription is all-or-nothing: if either attempt failed, the combined
/// outcome is a startup failure, and it is a success exactly when both
/// attempts succeeded.
pub proof fn lemma_subscription_all_or_nothing(first: Result<(), u32>, second: Result<(), u32>)
    ensures
        first is Err ==> spec_combine_subscriptions(first, second) is Err,
        second is Err ==> spec_combine_subscriptions(first, second) is Err,
        spec_combine_subscriptions(first, second) is Ok <==> (first is Ok && second is Ok),
{
}

/// The views of a list of argument strings.
pub open spec fn arg_views(args: Seq<String>) -> Seq<Seq<char>> {
    args.map_values(|s: String| s@)
}

/// Where diagnostic lines go, given the argument list and the fixed
/// debug-log path under the temporary directory: a `--debug` flag anywhere
/// selects the fixed path; otherwise a non-empty first positional argument
/// is taken verbatim; otherwise logging is disabled.
pub open spec fn spec_resolve_log_path(args: Seq<Seq<char>>, temp: Seq<char>) -> Option<Seq<char>> {
    let chosen = if exists|i: int| 0 <= i < args.len() && args[i] == "--debug"@ {
        temp
    } else if args.len() >= 2 && args[1] != "--debug"@ {
        args[1]
    } else {
        Seq::<char>::empty()
    };
    if chosen.len() == 0 {
        None
    } else {
        Some(chosen)
    }
}

/// Resolves the log path from the process arguments. `temp_log_path` is the
/// fixed debug-log location the caller derived from the temporary
/// directory.
pub fn resolve_log_path(args: &Vec<String>, temp_log_path: &str) -> (r: Option<String>)
    ensures
        match r {
            Some(p) => spec_resolve_log_path(arg_views(args@), temp_log_path@) == Some(p@),
            None => spec_resolve_log_path(arg_views(args@), temp_log_path@) is None,
        },
{
    let debug_flag = String::from_str("--debug");
    let mut found_debug = false;
    let mut i: usize = 0;
    while i < args.len()
        invariant
            0 <= i <= args.len(),
            debug_flag@ == "--debug"@,
            found_debug <==> exists|j: int| 0 <= j < i && arg_views(args@)[j] == "--debug"@,
        decreases args.len() - i,
    {
        if args[i].eq(&debug_flag) {
            proof {
                assert(arg_views(args@)[i as int] == "--debug"@);
            }
            found_debug = true;
        }
        i = i + 1;
    }
    if found_debug {
        if temp_log_path.is_empty() {
            None
        } else {
            Some(String::from_str(temp_log_path))
        }
    } else if args.len() >= 2 {
        let arg = &args[1];
        if arg.eq(&debug_flag) || arg.as_str().is_empty() {
            proof {
                assert(arg_views(args@)[1] == arg@);
            }
            None
        } else {
            proof {
                assert(arg_views(args@)[1] == arg@);
            }
            Some(arg.clone())
        }
    } else {
        None
    }
}

/// With no `--debug` flag and no first positional argument there is no log
/// path: the sink is absent and the agent performs no log writes at all.
pub proof fn lemma_no_args_no_sink(args: Seq<Seq<char>>, temp: Seq<char>)
    requires
        forall|i: int| 0 <= i < args.len() ==> #[trigger] args[i] != "--debug"@,
        args.len() < 2,
    ensures
        spec_resolve_log_path(args, temp) is None,
{
}

/// The dispatch loop keeps running exactly while the platform's blocking
/// message retrieval reports a message (a nonzero result); a zero result
/// signals queue closure and ends the loop.
pub fn dispatch_should_continue(get_message_result: i32) -> (r: bool)
    ensures
        r == (get_message_result != 0),
{
    get_message_result != 0
}

} // verus!
