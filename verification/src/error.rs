//! Business errors raised while applying a transaction record.
//!
//! All of these are local and non-fatal: the engine reports them and
//! drops the offending record, leaving all prior state intact.

use vstd::prelude::*;
use vstd::string::StringExecFns;

verus! {

/// A per-record business error. Each variant carries the client whose
/// account rejected the operation.
#[derive(Debug, Clone, Copy, PartialEq, Eq, Structural)]
pub enum EngineError {
    /// `available` was too low for a withdrawal or a dispute hold.
    InsufficientFunds { client_id: u16 },
    /// `held` was too low for a resolve or a chargeback.
    InsufficientHeldFunds { client_id: u16 },
    /// The account was locked by an earlier chargeback.
    AccountLocked { client_id: u16 },
}

/// The decimal digit character for `d < 10`.
pub open spec fn spec_digit(d: nat) -> char {
    if d == 0 {
        '0'
    } else if d == 1 {
        '1'
    } else if d == 2 {
        '2'
    } else if d == 3 {
        '3'
    } else if d == 4 {
        '4'
    } else if d == 5 {
        '5'
    } else if d == 6 {
        '6'
    } else if d == 7 {
        '7'
    } else if d == 8 {
        '8'
    } else {
        '9'
    }
}

/// The decimal digits of `n`, most significant first, no leading zero
/// except for `n == 0` itself.
pub open spec fn spec_decimal(n: nat) -> Seq<char>
    decreases n,
{
    if n < 10 {
        seq![spec_digit(n)]
    } else {
        spec_decimal(n / 10).push(spec_digit(n % 10))
    }
}

/// The diagnostic text for `e`, as the engine reports it.
pub open spec fn spec_message(e: EngineError) -> Seq<char> {
    match e {
        EngineError::InsufficientFunds { client_id } => "Insufficient funds for client "@
            + spec_decimal(client_id as nat),
        EngineError::InsufficientHeldFunds { client_id } => "Insufficient funds held for client "@
            + spec_decimal(client_id as nat),
        EngineError::AccountLocked { client_id } => "Account "@ + spec_decimal(client_id as nat)
            + " is locked"@,
    }
}

/// Appends the single decimal digit `d` to `s`.
fn push_digit(s: &mut String, d: u64)
    requires
        d < 10,
    ensures
        final(s)@ == old(s)@ + seq![spec_digit(d as nat)],
{
    proof {
        reveal_strlit("0");
        reveal_strlit("1");
        reveal_strlit("2");
        reveal_strlit("3");
        reveal_strlit("4");
        reveal_strlit("5");
        reveal_strlit("6");
        reveal_strlit("7");
        reveal_strlit("8");
        reveal_strlit("9");
    }
    let c: &str = if d == 0 {
        "0"
    } else if d == 1 {
        "1"
    } else if d == 2 {
        "2"
    } else if d == 3 {
        "3"
    } else if d == 4 {
        "4"
    } else if d == 5 {
        "5"
    } else if d == 6 {
        "6"
    } else if d == 7 {
        "7"
    } else if d == 8 {
        "8"
    } else {
        "9"
    };
    proof {
        assert(c@ =~= seq![spec_digit(d as nat)]);
    }
    s.append(c);
}

/// Appends the decimal digits of `n` to `s`.
fn push_decimal(s: &mut String, n: u64)
    ensures
        final(s)@ == old(s)@ + spec_decimal(n as nat),
    decreases n,
{
    if n < 10 {
        push_digit(s, n);
    } else {
        push_decimal(s, n / 10);
        push_digit(s, n % 10);
        proof {
            assert(spec_decimal(n as nat) =~= spec_decimal((n as nat) / 10) + seq![
                spec_digit((n as nat) % 10),
            ]);
            assert((old(s)@ + spec_decimal((n as nat) / 10)) + seq![spec_digit((n as nat) % 10)]
                =~= old(s)@ + spec_decimal(n as nat));
        }
    }
}

impl EngineError {
    /// The diagnostic text for this error, naming the client: exactly
    /// `spec_message(*self)`.
    pub fn message(&self) -> (s: String)
        ensures
            s@ == spec_message(*self),
    {
        match self {
            EngineError::InsufficientFunds { client_id } => {
                let mut s = String::from_str("Insufficient funds for client ");
                push_decimal(&mut s, *client_id as u64);
                s
            },
            EngineError::InsufficientHeldFunds { client_id } => {
                let mut s = String::from_str("Insufficient funds held for client ");
                push_decimal(&mut s, *client_id as u64);
                s
            },
            EngineError::AccountLocked { client_id } => {
                let mut s = String::from_str("Account ");
                push_decimal(&mut s, *client_id as u64);
                s.append(" is locked");
                s
            },
        }
    }
}

} // verus!
