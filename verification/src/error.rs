use vstd::prelude::*;

verus! {

/// Errors of every stage of the pipeline, each with a message.
#[derive(Debug)]
pub enum NyxError {
    IoError(String),
    ParseError(String),
    TransformError(String),
    RenderError(String),
    InvalidInput(String),
}

/// Result type used across the library.
pub type NyxResult<T> = Result<T, NyxError>;

/// The character of a decimal digit.
pub open spec fn digit_char(d: nat) -> char {
    if d == 0 { '0' }
    else if d == 1 { '1' }
    else if d == 2 { '2' }
    else if d == 3 { '3' }
    else if d == 4 { '4' }
    else if d == 5 { '5' }
    else if d == 6 { '6' }
    else if d == 7 { '7' }
    else if d == 8 { '8' }
    else { '9' }
}

/// The decimal notation of a natural number, without leading zeros.
pub open spec fn decimal(n: nat) -> Seq<char>
    decreases n,
{
    if n < 10 {
        seq![digit_char(n)]
    } else {
        decimal(n / 10).push(digit_char(n % 10))
    }
}

/// Decimal notation: a digit `d` is the character with code `'0' + d`, a number below ten
/// is its single digit, and `10 * q + d` with `q >= 1` is the notation of `q` followed by
/// the digit `d`.
pub proof fn law_decimal_digits(q: nat, d: nat)
    requires
        d < 10,
    ensures
        digit_char(d) as u32 == 48 + d,
        decimal(d) == seq![digit_char(d)],
        q >= 1 ==> decimal(10 * q + d) == decimal(q).push(digit_char(d)),
{
    if q >= 1 {
        assert((10 * q + d) / 10 == q);
        assert((10 * q + d) % 10 == d);
    }
}

fn digit_str(d: usize) -> (s: &'static str)
    requires
        d < 10,
    ensures
        s@ == seq![digit_char(d as nat)],
{
    proof {
        reveal_strlit("0");
        reveal_strlit("1");
        reveal_strlit("2");
        reveal_strlit("3");
        reveal_strlit("4");
        reveal_strlit("5");
        reveal_strlit("6");
        reveal_strlit("7");
        reveal_strlit("8");
        reveal_strlit("9");
    }
    match d {
        0 => "0",
        1 => "1",
        2 => "2",
        3 => "3",
        4 => "4",
        5 => "5",
        6 => "6",
        7 => "7",
        8 => "8",
        _ => "9",
    }
}

/// Appends the decimal notation of `n` to `s`.
pub fn push_decimal(s: &mut String, n: usize)
    ensures
        final(s)@ == old(s)@ + decimal(n as nat),
    decreases n,
{
    if n < 10 {
        s.append(digit_str(n));
    } else {
        push_decimal(s, n / 10);
        s.append(digit_str(n % 10));
    }
}

impl NyxError {
    /// The prefix that names the kind of an error in its description.
    pub open spec fn kind_prefix(&self) -> Seq<char> {
        match self {
            NyxError::IoError(_) => "IO Error: "@,
            NyxError::ParseError(_) => "Parse Error: "@,
            NyxError::TransformError(_) => "Transform Error: "@,
            NyxError::RenderError(_) => "Render Error: "@,
            NyxError::InvalidInput(_) => "Invalid Input: "@,
        }
    }

    /// The message carried by an error.
    pub open spec fn message(&self) -> Seq<char> {
        match self {
            NyxError::IoError(m) => m@,
            NyxError::ParseError(m) => m@,
            NyxError::TransformError(m) => m@,
            NyxError::RenderError(m) => m@,
            NyxError::InvalidInput(m) => m@,
        }
    }

    /// Human-readable description: the kind of the error, then its message.
    pub fn to_string(&self) -> (s: String)
        ensures
            s@ == self.kind_prefix() + self.message(),
    {
        let (prefix, msg) = match self {
            NyxError::IoError(m) => ("IO Error: ", m),
            NyxError::ParseError(m) => ("Parse Error: ", m),
            NyxError::TransformError(m) => ("Transform Error: ", m),
            NyxError::RenderError(m) => ("Render Error: ", m),
            NyxError::InvalidInput(m) => ("Invalid Input: ", m),
        };
        let mut s = prefix.to_owned();
        s.append(msg.as_str());
        s
    }
}

} // verus!
