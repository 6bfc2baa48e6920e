//! What the driver reports back after one HTTP round trip, and how the core
//! reads it.

use vstd::prelude::*;
use vstd::string::*;

use crate::json::{parse_document, parsed_text_members, text_member};

verus! {

/// The outcome of one HTTP round trip, as the driver saw it.
#[derive(Debug)]
pub enum Exchange {
    /// The backend answered: its status code and the whole body.
    Response { status: u16, body: Vec<u8> },
    /// No answer arrived: the network failed or the timeout ran out.
    NoResponse { cause: String },
}

/// The mathematical content of an [`Exchange`].
pub enum ExchangeView {
    Response { status: u16, body: Seq<u8> },
    NoResponse { cause: Seq<char> },
}

impl View for Exchange {
    type V = ExchangeView;

    open spec fn view(&self) -> ExchangeView {
        match self {
            Exchange::Response { status, body } => ExchangeView::Response {
                status: *status,
                body: body@,
            },
            Exchange::NoResponse { cause } => ExchangeView::NoResponse { cause: cause@ },
        }
    }
}

/// Why an execution failed.
#[derive(Debug)]
pub enum Failure {
    /// The round trip itself failed.
    Transport { cause: String },
    /// The backend answered with a status outside the success range.
    Status { code: u16 },
    /// The body of a successful answer is not a JSON document.
    Decode,
}

/// The mathematical content of a [`Failure`].
pub enum FailureView {
    Transport { cause: Seq<char> },
    Status { code: u16 },
    Decode,
}

impl View for Failure {
    type V = FailureView;

    open spec fn view(&self) -> FailureView {
        match self {
            Failure::Transport { cause } => FailureView::Transport { cause: cause@ },
            Failure::Status { code } => FailureView::Status { code: *code },
            Failure::Decode => FailureView::Decode,
        }
    }
}

/// The character of a decimal digit.
pub open spec fn digit_char(d: nat) -> char {
    if d == 0 {
        '0'
    } else if d == 1 {
        '1'
    } else if d == 2 {
        '2'
    } else if d == 3 {
        '3'
    } else if d == 4 {
        '4'
    } else if d == 5 {
        '5'
    } else if d == 6 {
        '6'
    } else if d == 7 {
        '7'
    } else if d == 8 {
        '8'
    } else {
        '9'
    }
}

/// A number written in decimal, without leading zeros.
pub open spec fn decimal_text(n: nat) -> Seq<char>
    decreases n,
{
    if n < 10 {
        seq![digit_char(n)]
    } else {
        decimal_text(n / 10).push(digit_char(n % 10))
    }
}

impl FailureView {
    /// The human-readable cause that a failed result carries.
    pub open spec fn message(self) -> Seq<char> {
        match self {
            FailureView::Transport { cause } => "request failed: "@ + cause,
            FailureView::Status { code } => "backend returned HTTP status "@ + decimal_text(
                code as nat,
            ),
            FailureView::Decode => "response body is not valid JSON"@,
        }
    }
}

fn digit_text(d: u16) -> (text: &'static str)
    requires
        d < 10,
    ensures
        text@ == seq![digit_char(d as nat)],
{
    proof {
        reveal_strlit("0");
        reveal_strlit("1");
        reveal_strlit("2");
        reveal_strlit("3");
        reveal_strlit("4");
        reveal_strlit("5");
        reveal_strlit("6");
        reveal_strlit("7");
        reveal_strlit("8");
        reveal_strlit("9");
    }
    let text = if d == 0 {
        "0"
    } else if d == 1 {
        "1"
    } else if d == 2 {
        "2"
    } else if d == 3 {
        "3"
    } else if d == 4 {
        "4"
    } else if d == 5 {
        "5"
    } else if d == 6 {
        "6"
    } else if d == 7 {
        "7"
    } else if d == 8 {
        "8"
    } else {
        "9"
    };
    assert(text@ =~= seq![digit_char(d as nat)]);
    text
}

/// Writes `n` in decimal.
pub fn decimal(n: u16) -> (text: String)
    ensures
        text@ == decimal_text(n as nat),
    decreases n,
{
    if n < 10 {
        String::from_str(digit_text(n))
    } else {
        let mut text = decimal(n / 10);
        text.append(digit_text(n % 10));
        assert(text@ =~= decimal_text(n as nat));
        text
    }
}

impl Failure {
    /// The human-readable cause that a failed result carries.
    pub fn message(&self) -> (text: String)
        ensures
            text@ == self@.message(),
    {
        match self {
            Failure::Transport { cause } => {
                let mut text = String::from_str("request failed: ");
                text.append(cause.as_str());
                text
            },
            Failure::Status { code } => {
                let mut text = String::from_str("backend returned HTTP status ");
                let digits = decimal(*code);
                text.append(digits.as_str());
                text
            },
            Failure::Decode => String::from_str("response body is not valid JSON"),
        }
    }
}

/// Whether an HTTP status code reports success.
pub open spec fn is_success(status: u16) -> bool {
    200 <= status <= 299
}

/// The member of a response document that carries the generated text.
pub open spec fn response_key() -> Seq<char> {
    "response"@
}

/// The generated text among the string members of a response document, if
/// it has any.
pub open spec fn response_text(members: Map<Seq<char>, Seq<char>>) -> Option<Seq<char>> {
    if members.contains_key(response_key()) {
        Some(members[response_key()])
    } else {
        None
    }
}

/// What an exchange amounts to: the generated text of a successful answer
/// (none when the document has no such string), or the reason for failure.
pub open spec fn interpretation(exchange: ExchangeView) -> Result<Option<Seq<char>>, FailureView> {
    match exchange {
        ExchangeView::NoResponse { cause } => Err(FailureView::Transport { cause }),
        ExchangeView::Response { status, body } => if !is_success(status) {
            Err(FailureView::Status { code: status })
        } else {
            match parsed_text_members(body) {
                None => Err(FailureView::Decode),
                Some(members) => Ok(response_text(members)),
            }
        },
    }
}

/// The mathematical content of what [`interpret`] returns.
pub open spec fn outcome_view(outcome: Result<Option<String>, Failure>) -> Result<
    Option<Seq<char>>,
    FailureView,
> {
    match outcome {
        Ok(Some(text)) => Ok(Some(text@)),
        Ok(None) => Ok(None),
        Err(failure) => Err(failure@),
    }
}

/// Reads an exchange: a transport failure, a status outside 200..=299 and a
/// body that is not JSON are failures; any other answer succeeds, with the
/// document's `response` string as its text when there is one.
pub fn interpret(exchange: Exchange) -> (outcome: Result<Option<String>, Failure>)
    ensures
        outcome_view(outcome) == interpretation(exchange@),
{
    match exchange {
        Exchange::NoResponse { cause } => Err(Failure::Transport { cause }),
        Exchange::Response { status, body } => {
            if status < 200 || status > 299 {
                Err(Failure::Status { code: status })
            } else {
                match parse_document(body.as_slice()) {
                    Err(_) => Err(Failure::Decode),
                    Ok(document) => Ok(text_member(&document, "response")),
                }
            }
        },
    }
}

} // verus!
