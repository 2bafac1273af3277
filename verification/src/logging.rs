//! The logger that hands log records to a callback: the line it delivers, the
//! delivery itself, and the choice of the backend at start-up.

use vstd::prelude::*;
use vstd::string::StringExecFns;
use env_logger::Builder;
use crate::filter::{
    configured_directives, logger_builder, directives, stdout_logger_builder, text_view,
    writes_to_stdout,
};
use crate::level::Level;

verus! {

/// The category under which every record of this logger is delivered.
pub const CATEGORY: &'static str = "sdk";

/// What is written to the fallback output when a record arrives and no
/// callback is there to take it.
pub const NO_CALLBACK: &'static str = "Callback logger should be set";

/// The character of a decimal digit.
pub open spec fn digit_char(d: int) -> char {
    if d == 0 {
        '0'
    } else if d == 1 {
        '1'
    } else if d == 2 {
        '2'
    } else if d == 3 {
        '3'
    } else if d == 4 {
        '4'
    } else if d == 5 {
        '5'
    } else if d == 6 {
        '6'
    } else if d == 7 {
        '7'
    } else if d == 8 {
        '8'
    } else {
        '9'
    }
}

/// The decimal numeral of `n`, without sign or leading zeros.
pub open spec fn decimal(n: nat) -> Seq<char>
    decreases n,
{
    if n < 10 {
        seq![digit_char(n as int)]
    } else {
        decimal(n / 10).push(digit_char((n % 10) as int))
    }
}

/// The line that is delivered for a record: the place it comes from in square
/// brackets, then its text. The place is `file:line` followed by a space where
/// both are known, and the target, with no space after the bracket, where
/// either is missing.
pub open spec fn message_of(
    file: Option<Seq<char>>,
    line: Option<u32>,
    target: Seq<char>,
    body: Seq<char>,
) -> Seq<char> {
    match (file, line) {
        (Some(f), Some(l)) => seq!['['] + f + seq![':'] + decimal(l as nat) + seq![']', ' '] + body,
        _ => seq!['['] + target + seq![']'] + body,
    }
}

fn digit_str(d: u32) -> (s: &'static str)
    requires
        d < 10,
    ensures
        s@ == seq![digit_char(d as int)],
{
    proof {
        reveal_strlit("0");
        reveal_strlit("1");
        reveal_strlit("2");
        reveal_strlit("3");
        reveal_strlit("4");
        reveal_strlit("5");
        reveal_strlit("6");
        reveal_strlit("7");
        reveal_strlit("8");
        reveal_strlit("9");
    }
    let s = match d {
        0 => "0",
        1 => "1",
        2 => "2",
        3 => "3",
        4 => "4",
        5 => "5",
        6 => "6",
        7 => "7",
        8 => "8",
        _ => "9",
    };
    assert(s@ =~= seq![digit_char(d as int)]);
    s
}

fn push_decimal(out: &mut String, n: u32)
    ensures
        final(out)@ == old(out)@ + decimal(n as nat),
    decreases n,
{
    if n >= 10 {
        push_decimal(out, n / 10);
    }
    out.append(digit_str(n % 10));
    assert(final(out)@ =~= old(out)@ + decimal(n as nat));
}

/// Builds the line that is delivered for a record with the given source
/// file, line number, target and text.
pub fn format_message(file: Option<&str>, line: Option<u32>, target: &str, body: &str) -> (message:
    String)
    ensures
        message@ == message_of(
            match file {
                Some(f) => Some(f@),
                None => None,
            },
            line,
            target@,
            body@,
        ),
{
    proof {
        reveal_strlit("[");
        reveal_strlit(":");
        reveal_strlit("] ");
        reveal_strlit("]");
    }
    let mut message = String::from_str("[");
    match (file, line) {
        (Some(f), Some(l)) => {
            message.append(f);
            message.append(":");
            push_decimal(&mut message, l);
            message.append("] ");
            message.append(body);
            assert(message@ =~= seq!['['] + f@ + seq![':'] + decimal(l as nat) + seq![']', ' ']
                + body@);
        },
        _ => {
            message.append(target);
            message.append("]");
            message.append(body);
            assert(message@ =~= seq!['['] + target@ + seq![']'] + body@);
        },
    }
    message
}

/// What became of a line that was handed to the logger.
#[derive(Clone, Copy, Debug, PartialEq, Eq, Structural)]
pub enum Handover {
    /// The callback was called with the line.
    Delivered,
    /// The line arrived while the thread was delivering another one, and was
    /// dropped: the callback is never called from within itself.
    Suppressed,
    /// There is no callback; `NO_CALLBACK` goes to the fallback output.
    NoCallback,
}

/// What is to become of a line, given whether there is a callback and
/// whether the thread is delivering a line already.
pub open spec fn handover_of(has_callback: bool, delivering: bool) -> Handover {
    if !has_callback {
        Handover::NoCallback
    } else if delivering {
        Handover::Suppressed
    } else {
        Handover::Delivered
    }
}

/// Hands one line to the callback. `delivering` says whether the thread is
/// inside a delivery already, as it is when the callback, or what the
/// callback calls, logs in turn: such a line is dropped. Where there is no
/// callback nothing is delivered either.
pub fn log_message<F: Fn(&str, Level, &str)>(
    callback: Option<&F>,
    delivering: bool,
    category: &str,
    level: Level,
    msg: &str,
) -> (handover: Handover)
    requires
        callback matches Some(cb) ==> cb.requires((category, level, msg)),
    ensures
        handover == handover_of(callback is Some, delivering),
        handover == Handover::Delivered ==> (callback matches Some(cb) && cb.ensures(
            (category, level, msg),
            (),
        )),
{
    match callback {
        Some(cb) => {
            if delivering {
                Handover::Suppressed
            } else {
                cb(category, level, msg);
                Handover::Delivered
            }
        },
        None => Handover::NoCallback,
    }
}

/// The environment variable that holds a filter string.
pub const FILTER_VARIABLE: &'static str = "SDK_LOG";

/// The environment variable that, when set, sends the log to standard output
/// whatever the caller asks for.
pub const STDOUT_VARIABLE: &'static str = "SDK_LOG_STDOUT";

/// What the process environment says about logging.
pub struct Environment<'a> {
    /// The value of `FILTER_VARIABLE`, if it is set.
    pub filter: Option<&'a str>,
    /// Whether `STDOUT_VARIABLE` is set.
    pub force_stdout: bool,
}

/// The logger to install.
pub enum Backend<C> {
    /// Records that pass the logger of `builder` are handed to `callback`.
    Callback { callback: C, builder: Builder },
    /// The logger of `builder` writes the records to standard output.
    Stdout { builder: Builder },
}

/// Whether records go to the callback: there is one, and neither the caller
/// nor the environment forces standard output.
pub open spec fn callback_chosen<C>(
    callback: Option<C>,
    force_stdout: bool,
    env: Environment<'_>,
) -> bool {
    callback is Some && !force_stdout && !env.force_stdout
}

/// Whether `backend` is the one that the arguments and the environment call
/// for, holding the callback that was passed and a builder configured with
/// the winning filter.
pub open spec fn backend_for<C>(
    backend: Backend<C>,
    callback: Option<C>,
    force_stdout: bool,
    filter: Seq<char>,
    env: Environment<'_>,
) -> bool {
    match backend {
        Backend::Callback { callback: cb, builder } => {
            &&& callback_chosen(callback, force_stdout, env)
            &&& callback == Some(cb)
            &&& directives(builder) == configured_directives(filter, text_view(env.filter))
            &&& !writes_to_stdout(builder)
        },
        Backend::Stdout { builder } => {
            &&& !callback_chosen(callback, force_stdout, env)
            &&& directives(builder) == configured_directives(filter, text_view(env.filter))
            &&& writes_to_stdout(builder)
        },
    }
}

/// Chooses and configures the logger for a callback, with no filter string
/// and without forcing standard output.
pub fn init<C>(callback: Option<C>, env: &Environment<'_>) -> (backend: Backend<C>)
    ensures
        backend_for(backend, callback, false, Seq::empty(), *env),
{
    proof {
        reveal_strlit("");
    }
    assert(""@ =~= Seq::empty());
    init_with_config(callback, false, "", env)
}

/// Chooses and configures the logger. The callback receives the records where
/// there is one and standard output is forced neither by `force_stdout` nor by
/// the environment; otherwise they are written to standard output and the
/// callback is dropped. Either way the filter is `filter_string` where it is
/// not empty, else the one from the environment, else the defaults.
pub fn init_with_config<C>(
    callback: Option<C>,
    force_stdout: bool,
    filter_string: &str,
    env: &Environment<'_>,
) -> (backend: Backend<C>)
    ensures
        backend_for(backend, callback, force_stdout, filter_string@, *env),
{
    let force_stdout = env.force_stdout || force_stdout;
    match (callback, force_stdout) {
        (Some(callback), false) => Backend::Callback {
            callback,
            builder: logger_builder(filter_string, env.filter),
        },
        _ => Backend::Stdout { builder: stdout_logger_builder(filter_string, env.filter) },
    }
}

} // verus!
