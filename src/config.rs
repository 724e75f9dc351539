//! Reading the tracking number from the command line, and the notifier's settings.
use vstd::prelude::*;

use crate::model::TrackError;

verus! {

/// The tracking number from the command line `args` (program name first):
/// there must be exactly one argument after the program name.
pub fn parse_tracking_number(args: &Vec<String>) -> (r: Result<String, TrackError>)
    ensures
        r is Ok <==> args@.len() == 2,
        r matches Ok(n) ==> n@ == args@[1]@,
        r matches Err(e) ==> e == TrackError::UsageError,
{
    if args.len() == 2 {
        Ok(args[1].clone())
    } else {
        Err(TrackError::UsageError)
    }
}

/// The notifier's settings: the bot's token and the chat to write to. Both are
/// required; a missing one is a `ConfigError`.
pub fn bot_settings(token: Option<String>, target: Option<String>) -> (r: Result<
    (String, String),
    TrackError,
>)
    ensures
        r is Ok <==> token is Some && target is Some,
        r matches Ok(p) ==> Some(p.0) == token && Some(p.1) == target,
        r matches Err(e) ==> e == TrackError::ConfigError,
{
    match (token, target) {
        (Some(t), Some(u)) => Ok((t, u)),
        _ => Err(TrackError::ConfigError),
    }
}

} // verus!
