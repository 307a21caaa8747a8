//! Reporting errors in the log.

use vstd::prelude::*;
use vstd::string::StringExecFns;

verus! {

/// The log line for the `index`-th message of an error chain: the error itself,
/// then each cause indented under "caused by".
pub open spec fn error_chain_line(messages: Seq<Seq<char>>, index: int) -> Seq<char> {
    if index == 0 {
        messages[0]
    } else {
        "  caused by: "@ + messages[index]
    }
}

/// The texts of `messages`, in order.
pub open spec fn texts(messages: Seq<String>) -> Seq<Seq<char>> {
    messages.map_values(|message: String| message@)
}

/// `first` followed by `rest`: an error's message followed by the chain of its cause.
pub fn chain_with(first: String, rest: Vec<String>) -> (chain: Vec<String>)
    ensures
        texts(chain@) =~= seq![first@] + texts(rest@),
{
    let mut chain: Vec<String> = Vec::new();
    chain.push(first);
    let mut index: usize = 0;
    while index < rest.len()
        invariant
            index <= rest@.len(),
            texts(chain@) =~= seq![first@] + texts(rest@.take(index as int)),
        decreases rest@.len() - index,
    {
        let ghost before = chain@;
        let next = rest[index].clone();
        chain.push(next);
        proof {
            assert(rest@.take(index + 1) =~= rest@.take(index as int).push(rest@[index as int]));
            assert(texts(chain@) =~= texts(before).push(next@));
            assert(texts(rest@.take(index + 1)) =~= texts(rest@.take(index as int)).push(rest@[index as int]@));
        }
        index = index + 1;
    }
    proof {
        assert(rest@.take(rest@.len() as int) =~= rest@);
    }
    chain
}

/// The lines that report an error and its chain of causes, given their messages
/// from the outermost error inward; the caller writes them to the error log.
pub fn log_error_chain(messages: &Vec<String>) -> (lines: Vec<String>)
    ensures
        lines@.len() == messages@.len(),
        forall|i: int|
            0 <= i < messages@.len() ==> #[trigger] lines@[i]@ == error_chain_line(
                messages@.map_values(|message: String| message@),
                i,
            ),
{
    let ghost texts = messages@.map_values(|message: String| message@);
    let mut lines: Vec<String> = Vec::new();
    let mut index: usize = 0;
    while index < messages.len()
        invariant
            index <= messages@.len(),
            texts == messages@.map_values(|message: String| message@),
            lines@.len() == index,
            forall|i: int| 0 <= i < index ==> #[trigger] lines@[i]@ == error_chain_line(texts, i),
        decreases messages@.len() - index,
    {
        let line = if index == 0 {
            messages[index].clone()
        } else {
            String::from_str("  caused by: ").concat(messages[index].as_str())
        };
        lines.push(line);
        index = index + 1;
    }
    lines
}

} // verus!

verus! {

/// How much the application logs.
#[derive(Clone, Copy, Debug, PartialEq, Eq, Structural)]
pub enum LogLevel {
    Info,
    Debug,
    Trace,
}

/// The log level the command line asks for: information by default, debugging with
/// `--verbose`/`-v`, tracing with `--very-verbose`/`-vv`, which wins over `--verbose`.
pub fn select_log_level(verbose: bool, very_verbose: bool) -> (level: LogLevel)
    ensures
        level == if very_verbose {
            LogLevel::Trace
        } else if verbose {
            LogLevel::Debug
        } else {
            LogLevel::Info
        },
{
    let mut log_level = LogLevel::Info;
    if verbose {
        log_level = LogLevel::Debug;
    }
    if very_verbose {
        log_level = LogLevel::Trace;
    }
    log_level
}

} // verus!

verus! {

/// The decimal digit character for `digit` (below ten).
pub open spec fn digit_char(digit: nat) -> char {
    if digit == 0 { '0' }
    else if digit == 1 { '1' }
    else if digit == 2 { '2' }
    else if digit == 3 { '3' }
    else if digit == 4 { '4' }
    else if digit == 5 { '5' }
    else if digit == 6 { '6' }
    else if digit == 7 { '7' }
    else if digit == 8 { '8' }
    else { '9' }
}

/// `value` written in decimal, without leading zeros.
pub open spec fn decimal(value: nat) -> Seq<char>
    decreases value,
{
    if value < 10 {
        seq![digit_char(value)]
    } else {
        decimal(value / 10) + seq![digit_char(value % 10)]
    }
}

/// `value` written in decimal, with a minus sign when it is negative.
pub open spec fn signed_decimal(value: int) -> Seq<char> {
    if value < 0 {
        seq!['-'] + decimal((-value) as nat)
    } else {
        decimal(value as nat)
    }
}

/// The text of one decimal digit.
fn digit_text(digit: u64) -> (text: &'static str)
    requires
        digit < 10,
    ensures
        text@ == seq![digit_char(digit as nat)],
{
    if digit == 0 {
        proof { reveal_strlit("0"); }
        "0"
    } else if digit == 1 {
        proof { reveal_strlit("1"); }
        "1"
    } else if digit == 2 {
        proof { reveal_strlit("2"); }
        "2"
    } else if digit == 3 {
        proof { reveal_strlit("3"); }
        "3"
    } else if digit == 4 {
        proof { reveal_strlit("4"); }
        "4"
    } else if digit == 5 {
        proof { reveal_strlit("5"); }
        "5"
    } else if digit == 6 {
        proof { reveal_strlit("6"); }
        "6"
    } else if digit == 7 {
        proof { reveal_strlit("7"); }
        "7"
    } else if digit == 8 {
        proof { reveal_strlit("8"); }
        "8"
    } else {
        proof { reveal_strlit("9"); }
        "9"
    }
}

/// `value` written in decimal, as integers are shown in messages.
pub fn decimal_text(value: u64) -> (text: String)
    ensures
        text@ == decimal(value as nat),
    decreases value,
{
    if value < 10 {
        String::from_str(digit_text(value))
    } else {
        decimal_text(value / 10).concat(digit_text(value % 10))
    }
}

/// `value` written in decimal with its sign, as signed integers are shown in
/// messages.
pub fn signed_decimal_text(value: i64) -> (text: String)
    ensures
        text@ == signed_decimal(value as int),
{
    if value < 0 {
        let magnitude: u64 = if value == i64::MIN {
            9223372036854775808u64
        } else {
            (0 - value) as u64
        };
        proof { reveal_strlit("-"); }
        String::from_str("-").concat(decimal_text(magnitude).as_str())
    } else {
        decimal_text(value as u64)
    }
}

} // verus!
