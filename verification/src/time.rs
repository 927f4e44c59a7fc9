//! The functions of the `time` module and the reading of their arguments.

use vstd::hash_map::StringHashMap;
use vstd::prelude::*;
use vstd::string::StringExecFns;

use crate::args::{ArgValue, Args};
use crate::epoch_text::{admissible_epoch_text, is_admissible_epoch_text};
use crate::error::{outcome, Error, ErrorView, ValueKind};

verus! {

/// A point in time as `hifitime` holds it: the time elapsed since the
/// reference epoch of a time scale, in centuries and nanoseconds into the
/// century, and the number that `hifitime` gives the time scale (0 for TAI,
/// 4 for UTC).
#[derive(Clone, Copy, Debug, PartialEq, Eq, Structural)]
pub struct ReferenceEpoch {
    pub centuries: i16,
    pub nanoseconds: u64,
    pub time_scale: u8,
}

/// `hifitime::HifitimeError`, of which nothing is looked into.
#[verifier::external_type_specification]
#[verifier::external_body]
pub struct ExHifitimeError(hifitime::HifitimeError);

/// What `hifitime` reads a text as: the epoch, or nothing where it refuses
/// the text.
pub uninterp spec fn hifitime_epoch(text: Seq<char>) -> Option<ReferenceEpoch>;

/// `hifitime`'s `FromStr` for `Epoch`. Nothing of it is proved here.
///
/// The contract says that the outcome is a function of the text alone, named
/// [`hifitime_epoch`]: the parser consults nothing else. `Ok` carries the
/// epoch that was read, its duration by `Duration::to_parts` and its time
/// scale by `hifitime`'s own numbering in `u8`; an error stands for no epoch.
///
/// The `requires` keeps from the parser the texts on which it can fail
/// without an answer: in a calendar date a run of ten or more digits (its
/// subsecond scaling and its leap-second look-up then overflow), and after
/// `JD`, `MJD` or `SEC` a number that is not finite, from which it declines
/// to build a duration.
#[verifier::external_body]
fn epoch_from_str(text: &str) -> (r: Result<ReferenceEpoch, hifitime::HifitimeError>)
    requires
        admissible_epoch_text(text@),
    ensures
        match r {
            Ok(epoch) => hifitime_epoch(text@) == Some(epoch),
            Err(_) => hifitime_epoch(text@) is None,
        },
{
    match <hifitime::Epoch as std::str::FromStr>::from_str(text) {
        Ok(epoch) => {
            let (centuries, nanoseconds) = epoch.duration.to_parts();
            Ok(ReferenceEpoch { centuries, nanoseconds, time_scale: u8::from(epoch.time_scale) })
        },
        Err(e) => Err(e),
    }
}

/// The epoch that a text names: what `hifitime` reads it as, where the text
/// is one of those handed to it.
pub open spec fn read_epoch(text: Seq<char>) -> Option<ReferenceEpoch> {
    if admissible_epoch_text(text) {
        hifitime_epoch(text)
    } else {
        None
    }
}

/// The epoch that was read, or the text as the error where none was.
pub open spec fn spec_epoch_or_error(text: Seq<char>, parsed: Option<ReferenceEpoch>) -> Result<
    ReferenceEpoch,
    ErrorView,
> {
    match parsed {
        Some(epoch) => Ok(epoch),
        None => Err(ErrorView::EpochParseError(text)),
    }
}

/// What reading an epoch text comes to, given what the parser made of it.
pub fn epoch_or_error(text: &str, parsed: Option<ReferenceEpoch>) -> (r: Result<
    ReferenceEpoch,
    Error,
>)
    ensures
        outcome(r) == spec_epoch_or_error(text@, parsed),
{
    match parsed {
        Some(epoch) => Ok(epoch),
        None => Err(Error::EpochParseError(String::from_str(text))),
    }
}

/// Reads an epoch text: the epoch it names, or the text as the error where
/// it names none.
pub fn parse_epoch(text: &str) -> (r: Result<ReferenceEpoch, Error>)
    ensures
        outcome(r) == spec_epoch_or_error(text@, read_epoch(text@)),
{
    if !is_admissible_epoch_text(text) {
        return epoch_or_error(text, None);
    }
    match epoch_from_str(text) {
        Ok(epoch) => epoch_or_error(text, Some(epoch)),
        Err(_) => epoch_or_error(text, None),
    }
}

/// A handle on one parametrized function: a plain value, free to copy.
///
/// Each function takes the primary number of a call and its argument bag and
/// answers with a Unix timestamp in seconds.
#[derive(Clone, Copy, Debug, PartialEq, Eq, Structural)]
pub enum ArgsMethod {
    /// From a Julian ephemeris date in UTC. Reads no argument.
    JdeToUnix,
    /// From seconds counted from the epoch named by the argument `epoch`.
    SecondsSinceEpochToUnix,
    /// From days counted from the epoch named by the argument `epoch`.
    DaysSinceEpochToUnix,
}

/// A function with its arguments read: what is left to compute on the primary
/// number.
#[derive(Clone, Copy, Debug, PartialEq, Eq, Structural)]
pub enum Invocation {
    /// The number is a Julian ephemeris date in UTC.
    JdeToUnix,
    /// The number counts seconds from this epoch.
    SecondsSince(ReferenceEpoch),
    /// The number counts days from this epoch.
    DaysSince(ReferenceEpoch),
}

/// The text under the argument `epoch`: missing where the bag is absent or has
/// no such entry, mismatched where the entry is no string.
pub open spec fn epoch_argument(bag: Option<Map<Seq<char>, ArgValue>>) -> Result<
    Seq<char>,
    ErrorView,
> {
    if bag is None || !bag->0.contains_key("epoch"@) {
        Err(ErrorView::ArgumentMissing("epoch"@))
    } else {
        match bag->0["epoch"@] {
            ArgValue::String(text) => Ok(text@),
            _ => Err(ErrorView::TypeMismatch("epoch"@, ValueKind::Text)),
        }
    }
}

impl ArgsMethod {
    /// Whether the function counts from the epoch under the argument `epoch`.
    pub open spec fn reads_epoch(self) -> bool {
        self != ArgsMethod::JdeToUnix
    }

    /// The function with the epoch it counts from.
    pub open spec fn since(self, epoch: ReferenceEpoch) -> Invocation {
        match self {
            ArgsMethod::JdeToUnix => Invocation::JdeToUnix,
            ArgsMethod::SecondsSinceEpochToUnix => Invocation::SecondsSince(epoch),
            ArgsMethod::DaysSinceEpochToUnix => Invocation::DaysSince(epoch),
        }
    }

    /// What binding the function to an argument bag gives. A function that
    /// reads no argument is bound whatever the bag holds. Otherwise the
    /// argument is looked up and narrowed first, and only a string that was
    /// found is read as an epoch.
    pub open spec fn spec_bind(self, bag: Option<Map<Seq<char>, ArgValue>>) -> Result<
        Invocation,
        ErrorView,
    > {
        if !self.reads_epoch() {
            Ok(Invocation::JdeToUnix)
        } else {
            match epoch_argument(bag) {
                Err(e) => Err(e),
                Ok(text) => match spec_epoch_or_error(text, read_epoch(text)) {
                    Ok(epoch) => Ok(self.since(epoch)),
                    Err(e) => Err(e),
                },
            }
        }
    }

    /// Reads the arguments that the function needs out of the bag.
    pub fn bind(self, args: &Args<'_>) -> (r: Result<Invocation, Error>)
        ensures
            outcome(r) == self.spec_bind(args@),
    {
        match self {
            ArgsMethod::JdeToUnix => Ok(Invocation::JdeToUnix),
            ArgsMethod::SecondsSinceEpochToUnix => {
                let text = args.arg("epoch")?.as_str()?;
                Ok(Invocation::SecondsSince(parse_epoch(text)?))
            },
            ArgsMethod::DaysSinceEpochToUnix => {
                let text = args.arg("epoch")?.as_str()?;
                Ok(Invocation::DaysSince(parse_epoch(text)?))
            },
        }
    }
}

/// The functions of the `time` module by their short names.
pub open spec fn args_functions_model() -> Map<Seq<char>, ArgsMethod> {
    Map::empty().insert("jde_to_unix"@, ArgsMethod::JdeToUnix).insert(
        "seconds_since_epoch_to_unix"@,
        ArgsMethod::SecondsSinceEpochToUnix,
    ).insert("days_since_epoch_to_unix"@, ArgsMethod::DaysSinceEpochToUnix)
}

/// Builds the function table of the `time` module.
pub fn args_functions() -> (r: StringHashMap<ArgsMethod>)
    ensures
        r@ == args_functions_model(),
{
    let mut m: StringHashMap<ArgsMethod> = StringHashMap::new();
    m.insert(String::from_str("jde_to_unix"), ArgsMethod::JdeToUnix);
    m.insert(String::from_str("seconds_since_epoch_to_unix"), ArgsMethod::SecondsSinceEpochToUnix);
    m.insert(String::from_str("days_since_epoch_to_unix"), ArgsMethod::DaysSinceEpochToUnix);
    m
}

} // verus!
