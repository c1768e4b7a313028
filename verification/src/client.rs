//! The client-side decisions behind submitting an entry: building it from
//! an inline command or from a command file's text, releasing it unless
//! the operator asked for `Paused`, judging the server's HTTP status, and
//! rendering the confirmation line character for character. Sending the
//! request and reading files stay with the caller.

use vstd::prelude::*;
use crate::domain::{status_chars, QueuedContainer, QueuedContainerView, Status};
use crate::errors::QueueError;

verus! {

/// The decimal digit `d` as a character.
pub open spec fn digit_char(d: nat) -> char {
    if d == 0 {
        '0'
    } else if d == 1 {
        '1'
    } else if d == 2 {
        '2'
    } else if d == 3 {
        '3'
    } else if d == 4 {
        '4'
    } else if d == 5 {
        '5'
    } else if d == 6 {
        '6'
    } else if d == 7 {
        '7'
    } else if d == 8 {
        '8'
    } else {
        '9'
    }
}

/// The decimal rendering of `n`: its digits, most significant first, with
/// no leading zero except for `n == 0` itself.
pub open spec fn dec_chars(n: nat) -> Seq<char>
    decreases n,
{
    if n < 10 {
        seq![digit_char(n)]
    } else {
        dec_chars(n / 10) + seq![digit_char(n % 10)]
    }
}

/// The line the CLI prints for an accepted submission:
/// `Container "<id>" added to queue (<status>)`.
pub open spec fn added_message_chars(id: nat, status: Status) -> Seq<char> {
    "Container \""@ + dec_chars(id) + "\" added to queue ("@ + status_chars(status) + ")"@
}

/// The single decimal digit `d` as a string slice.
fn digit_str(d: u64) -> (r: &'static str)
    requires
        d < 10,
    ensures
        r@ == seq![digit_char(d as nat)],
{
    proof {
        reveal_strlit("0");
        reveal_strlit("1");
        reveal_strlit("2");
        reveal_strlit("3");
        reveal_strlit("4");
        reveal_strlit("5");
        reveal_strlit("6");
        reveal_strlit("7");
        reveal_strlit("8");
        reveal_strlit("9");
    }
    match d {
        0 => "0",
        1 => "1",
        2 => "2",
        3 => "3",
        4 => "4",
        5 => "5",
        6 => "6",
        7 => "7",
        8 => "8",
        _ => "9",
    }
}

/// Appends the decimal rendering of `n` to `s`.
fn push_dec(s: &mut String, n: u64)
    ensures
        final(s)@ == old(s)@ + dec_chars(n as nat),
    decreases n,
{
    if n >= 10 {
        proof {
            assert(n / 10 < n) by (nonlinear_arith)
                requires
                    n >= 10,
            ;
        }
        push_dec(s, n / 10);
        s.append(digit_str(n % 10));
        proof {
            assert(final(s)@ =~= old(s)@ + dec_chars(n as nat));
        }
    } else {
        s.append(digit_str(n));
        proof {
            assert(final(s)@ =~= old(s)@ + dec_chars(n as nat));
        }
    }
}

/// Renders the line the CLI prints for an accepted submission, character
/// for character: `Container "<id>" added to queue (<status>)`.
pub fn added_message(id: u64, status: Status) -> (r: String)
    ensures
        r@ == added_message_chars(id as nat, status),
{
    let mut r = String::new();
    r.append("Container \"");
    push_dec(&mut r, id);
    r.append("\" added to queue (");
    r.append(status.label());
    r.append(")");
    proof {
        assert(r@ =~= added_message_chars(id as nat, status));
    }
    r
}

/// Builds the entry a `queue` invocation submits: a fresh entry holding
/// `command`, released to `Queued` unless `paused` asks it to wait.
/// An empty command is rejected as a `ValidationError`.
pub fn prepare_entry(id: u64, command: String, paused: bool) -> (r: Result<
    QueuedContainer,
    QueueError,
>)
    ensures
        command@.len() == 0 <==> r is Err,
        r is Err ==> r == Err::<QueuedContainer, QueueError>(QueueError::ValidationError),
        r matches Ok(e) ==> e@ == (QueuedContainerView {
            id,
            command: command@,
            status: if paused {
                Status::Paused
            } else {
                Status::Queued
            },
        }),
{
    let mut entry = QueuedContainer::new(id, command)?;
    if !paused {
        entry.queue();
    }
    Ok(entry)
}

/// Judges the HTTP status the server answered with: `Ok` exactly on a
/// success status (`2xx`), and `ServerStatusError` carrying the status
/// otherwise.
pub fn check_response_status(status: u16) -> (r: Result<(), QueueError>)
    ensures
        r is Ok <==> 200 <= status < 300,
        r is Err ==> r == Err::<(), QueueError>(QueueError::ServerStatusError(status)),
{
    if 200 <= status && status < 300 {
        Ok(())
    } else {
        Err(QueueError::ServerStatusError(status))
    }
}

} // verus!
