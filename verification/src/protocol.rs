//! The snapshot protocol: which request is served, and what is answered.

use crate::error::SessionError;
use vstd::prelude::*;
use vstd::string::StringExecFns;

verus! {

/// Where a request leads.
#[derive(Debug, Clone, Copy, PartialEq, Eq, Structural)]
pub enum Route {
    /// `GET /gpustate`: the snapshot.
    GpuState,
    /// Anything else.
    NotFound,
}

/// An answer: the status code and the body.
#[derive(Debug, Clone)]
pub struct SnapshotResponse {
    pub status: u16,
    pub body: String,
}

pub const STATUS_OK: u16 = 200;

pub const STATUS_NOT_FOUND: u16 = 404;

pub const STATUS_SERVER_ERROR: u16 = 500;

/// The ten digits.
pub open spec fn digits() -> Seq<char> {
    seq!['0', '1', '2', '3', '4', '5', '6', '7', '8', '9']
}

/// A number in decimal, without leading zeros.
pub open spec fn decimal(n: nat) -> Seq<char>
    decreases n,
{
    if n < 10 {
        seq![digits()[n as int]]
    } else {
        decimal(n / 10).push(digits()[(n % 10) as int])
    }
}

/// One line of an error report: the cause's place in square brackets, a
/// colon, a space, the cause, and a line feed.
pub open spec fn numbered_line(place: nat, cause: Seq<char>) -> Seq<char> {
    seq!['['] + decimal(place) + seq![']', ':', ' '] + cause + seq!['\n']
}

/// The lines of the causes from `from` on.
pub open spec fn numbered_lines(causes: Seq<Seq<char>>, from: int) -> Seq<char>
    decreases causes.len() - from,
{
    if from < 0 || from >= causes.len() {
        Seq::empty()
    } else {
        numbered_line(from as nat, causes[from]) + numbered_lines(causes, from + 1)
    }
}

/// The body of an error report: a heading, then one numbered line for each
/// cause, the outermost cause as number 0.
pub open spec fn chain_report(causes: Seq<Seq<char>>) -> Seq<char> {
    "Error chain:\n"@ + numbered_lines(causes, 0)
}

/// Whether the request asks for the snapshot.
pub open spec fn asks_for_snapshot(method: Seq<char>, path: Seq<char>) -> bool {
    method == "GET"@ && path == "/gpustate"@
}

/// Decides where a request leads: only `GET /gpustate` is served.
pub fn route(method: &str, path: &str) -> (r: Route)
    ensures
        r == (if asks_for_snapshot(method@, path@) {
            Route::GpuState
        } else {
            Route::NotFound
        }),
{
    let is_get = String::from_str(method) == String::from_str("GET");
    let is_state = String::from_str(path) == String::from_str("/gpustate");
    if is_get && is_state {
        Route::GpuState
    } else {
        Route::NotFound
    }
}

fn digit_text(d: usize) -> (text: &'static str)
    requires
        d < 10,
    ensures
        text@ == seq![digits()[d as int]],
{
    proof {
        reveal_strlit("0");
        reveal_strlit("1");
        reveal_strlit("2");
        reveal_strlit("3");
        reveal_strlit("4");
        reveal_strlit("5");
        reveal_strlit("6");
        reveal_strlit("7");
        reveal_strlit("8");
        reveal_strlit("9");
    }
    let text = if d == 0 {
        "0"
    } else if d == 1 {
        "1"
    } else if d == 2 {
        "2"
    } else if d == 3 {
        "3"
    } else if d == 4 {
        "4"
    } else if d == 5 {
        "5"
    } else if d == 6 {
        "6"
    } else if d == 7 {
        "7"
    } else if d == 8 {
        "8"
    } else {
        "9"
    };
    proof {
        assert(text@ =~= seq![digits()[d as int]]);
    }
    text
}

fn append_decimal(out: &mut String, n: usize)
    ensures
        final(out)@ == old(out)@ + decimal(n as nat),
    decreases n,
{
    if n >= 10 {
        append_decimal(out, n / 10);
    }
    let ghost before = out@;
    out.append(digit_text(n % 10));
    proof {
        if n >= 10 {
            assert(out@ =~= old(out)@ + decimal((n / 10) as nat).push(digits()[(n % 10) as int]));
        } else {
            assert(out@ =~= old(out)@ + decimal(n as nat));
        }
    }
}

/// Writes the causes of an error as a report, outermost cause first.
pub fn render_chain(error: &SessionError) -> (body: String)
    ensures
        body@ == chain_report(error.text()),
{
    let mut body = String::from_str("Error chain:\n");
    let mut i: usize = 0;
    while i < error.chain.len()
        invariant
            i <= error.chain@.len(),
            body@ + numbered_lines(error.text(), i as int) == chain_report(error.text()),
        decreases error.chain@.len() - i,
    {
        let ghost before = body@;
        body.append("[");
        append_decimal(&mut body, i);
        body.append("]: ");
        body.append(error.chain[i].as_str());
        body.append("\n");
        proof {
            reveal_strlit("[");
            reveal_strlit("]: ");
            reveal_strlit("\n");
            let line = numbered_line(i as nat, error.text()[i as int]);
            assert("["@ =~= seq!['[']);
            assert("]: "@ =~= seq![']', ':', ' ']);
            assert("\n"@ =~= seq!['\n']);
            assert(error.text()[i as int] == error.chain@[i as int]@);
            assert(body@ =~= before + line);
            assert(before + line + numbered_lines(error.text(), i + 1) =~= before + (line
                + numbered_lines(error.text(), i + 1)));
        }
        i += 1;
    }
    proof {
        assert(body@ + numbered_lines(error.text(), i as int) =~= body@);
    }
    body
}

impl SnapshotResponse {
    /// The answer to any request but `GET /gpustate`: not found, no body.
    pub fn not_found() -> (response: Self)
        ensures
            response.status == 404,
            response.body@.len() == 0,
    {
        SnapshotResponse { status: STATUS_NOT_FOUND, body: String::new() }
    }

    /// The answer that carries a snapshot in the wire format.
    pub fn snapshot(encoded: String) -> (response: Self)
        ensures
            response.status == 200,
            response.body@ == encoded@,
    {
        SnapshotResponse { status: STATUS_OK, body: encoded }
    }

    /// The answer to a snapshot that could not be read: a server error whose
    /// body is the report of the causes.
    pub fn failure(error: &SessionError) -> (response: Self)
        ensures
            response.status == 500,
            response.body@ == chain_report(error.text()),
    {
        SnapshotResponse { status: STATUS_SERVER_ERROR, body: render_chain(error) }
    }

    /// The answer to a request for the snapshot, given how reading and
    /// encoding it went.
    pub fn for_outcome(outcome: Result<String, SessionError>) -> (response: Self)
        ensures
            match outcome {
                Ok(encoded) => response.status == 200 && response.body@ == encoded@,
                Err(error) => response.status == 500 && response.body@ == chain_report(
                    error.text(),
                ),
            },
    {
        match outcome {
            Ok(encoded) => SnapshotResponse::snapshot(encoded),
            Err(error) => SnapshotResponse::failure(&error),
        }
    }
}

/// The report of an error with at least one cause begins with the heading
/// and the line numbered 0, which holds the outermost cause.
pub proof fn lemma_report_has_numbered_line(causes: Seq<Seq<char>>)
    requires
        causes.len() >= 1,
    ensures
        chain_report(causes) == "Error chain:\n"@ + (seq!['[', '0', ']', ':', ' '] + causes[0]
            + seq!['\n'] + numbered_lines(causes, 1)),
{
    assert(decimal(0) =~= seq!['0']);
    assert(numbered_line(0, causes[0]) =~= seq!['[', '0', ']', ':', ' '] + causes[0] + seq!['\n']);
}

} // verus!
