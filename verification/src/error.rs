//! The failures of a stub registry and the text that reports them.

use vstd::prelude::*;
use vstd::string::StringExecFns;

verus! {

/// A departure from what was registered.
#[derive(Debug, PartialEq, Eq)]
pub enum MockError {
    /// A stub with an expected count was called after the count had reached zero.
    Overcall { name: String },
    /// A stub was discarded while `missing` expected calls had not come.
    Undercall { name: String, missing: usize },
    /// A stub was retrieved with a signature other than the one it was
    /// registered with, or with other types under the same signature.
    TypeMismatch { name: String, expected: String, found: String },
    /// A stub was retrieved under a name that nothing is registered under.
    Unregistered { name: String },
}

/// What a [`MockError`] says, over sequences of characters.
pub enum Failure {
    Overcall { name: Seq<char> },
    Undercall { name: Seq<char>, missing: nat },
    TypeMismatch { name: Seq<char>, expected: Seq<char>, found: Seq<char> },
    Unregistered { name: Seq<char> },
}

impl View for MockError {
    type V = Failure;

    open spec fn view(&self) -> Failure {
        match *self {
            MockError::Overcall { name } => Failure::Overcall { name: name@ },
            MockError::Undercall { name, missing } => Failure::Undercall {
                name: name@,
                missing: missing as nat,
            },
            MockError::TypeMismatch { name, expected, found } => Failure::TypeMismatch {
                name: name@,
                expected: expected@,
                found: found@,
            },
            MockError::Unregistered { name } => Failure::Unregistered { name: name@ },
        }
    }
}

/// `out` is the result that reports `failure`: `Ok` for none, else the error
/// that says what the failure says.
pub open spec fn reports(out: Result<(), MockError>, failure: Option<Failure>) -> bool {
    match out {
        Ok(_) => failure is None,
        Err(error) => failure == Some(error@),
    }
}

/// The character of a single decimal digit.
pub open spec fn digit(d: nat) -> char
    recommends
        d < 10,
{
    if d == 0 {
        '0'
    } else if d == 1 {
        '1'
    } else if d == 2 {
        '2'
    } else if d == 3 {
        '3'
    } else if d == 4 {
        '4'
    } else if d == 5 {
        '5'
    } else if d == 6 {
        '6'
    } else if d == 7 {
        '7'
    } else if d == 8 {
        '8'
    } else {
        '9'
    }
}

/// A number in decimal, most significant digit first, without leading zeros.
pub open spec fn decimal(n: nat) -> Seq<char>
    decreases n,
{
    if n < 10 {
        seq![digit(n)]
    } else {
        decimal(n / 10).push(digit(n % 10))
    }
}

impl Failure {
    /// The stub that the failure is about.
    pub open spec fn name(self) -> Seq<char> {
        match self {
            Failure::Overcall { name } => name,
            Failure::Undercall { name, .. } => name,
            Failure::TypeMismatch { name, .. } => name,
            Failure::Unregistered { name } => name,
        }
    }

    /// The line that reports the failure. A mismatch names the signature
    /// registered and the one asked for; where the two are one, the stub was
    /// asked for with other types than those it was registered with, and
    /// the line says so.
    pub open spec fn text(self) -> Seq<char> {
        match self {
            Failure::Overcall { name } => name + " called too many times"@,
            Failure::Undercall { name, missing } => name + " not called enough times: "@
                + decimal(missing) + " more expected"@,
            Failure::TypeMismatch { name, expected, found } => name
                + " called with unexpected type:\n expected "@ + expected + ", found "@ + (
            if found == expected {
                "other types under the same signature"@
            } else {
                found
            }) + " instead."@,
            Failure::Unregistered { name } => "unexpected call to "@ + name,
        }
    }
}

/// The text of one decimal digit.
fn digit_text(d: usize) -> (text: &'static str)
    requires
        d < 10,
    ensures
        text@ == seq![digit(d as nat)],
{
    proof {
        reveal_strlit("0");
        reveal_strlit("1");
        reveal_strlit("2");
        reveal_strlit("3");
        reveal_strlit("4");
        reveal_strlit("5");
        reveal_strlit("6");
        reveal_strlit("7");
        reveal_strlit("8");
        reveal_strlit("9");
    }
    let text = if d == 0 {
        "0"
    } else if d == 1 {
        "1"
    } else if d == 2 {
        "2"
    } else if d == 3 {
        "3"
    } else if d == 4 {
        "4"
    } else if d == 5 {
        "5"
    } else if d == 6 {
        "6"
    } else if d == 7 {
        "7"
    } else if d == 8 {
        "8"
    } else {
        "9"
    };
    text
}

/// Appends `n` in decimal to `text`.
pub fn push_decimal(text: &mut String, n: usize)
    ensures
        final(text)@ == old(text)@ + decimal(n as nat),
    decreases n,
{
    if n >= 10 {
        push_decimal(text, n / 10);
    }
    text.append(digit_text(n % 10));
}

impl MockError {
    /// The name of the stub that the failure is about.
    pub fn name(&self) -> (name: &String)
        ensures
            name@ == self@.name(),
    {
        match self {
            MockError::Overcall { name } => name,
            MockError::Undercall { name, .. } => name,
            MockError::TypeMismatch { name, .. } => name,
            MockError::Unregistered { name } => name,
        }
    }

    /// The line that reports the failure: it names the stub, and for a
    /// mismatch both signatures, for missing calls their number.
    pub fn message(&self) -> (text: String)
        ensures
            text@ == self@.text(),
    {
        match self {
            MockError::Overcall { name } => {
                let mut text = name.clone();
                text.append(" called too many times");
                text
            },
            MockError::Undercall { name, missing } => {
                let mut text = name.clone();
                text.append(" not called enough times: ");
                push_decimal(&mut text, *missing);
                text.append(" more expected");
                text
            },
            MockError::TypeMismatch { name, expected, found } => {
                let mut text = name.clone();
                text.append(" called with unexpected type:\n expected ");
                text.append(expected.as_str());
                text.append(", found ");
                if *found == *expected {
                    text.append("other types under the same signature");
                } else {
                    text.append(found.as_str());
                }
                text.append(" instead.");
                text
            },
            MockError::Unregistered { name } => {
                let mut text = String::from_str("unexpected call to ");
                text.append(name.as_str());
                text
            },
        }
    }
}

} // verus!
