//! Reading a list of integers, one on each line.
use vstd::prelude::*;
use vstd::string::*;

verus! {

/// Why a line is not a number.
#[derive(Debug, Clone, Copy, PartialEq, Eq, Structural)]
pub enum NumberError {
    /// The line is empty.
    Empty,
    /// The line holds something that is not a digit, or a sign and nothing
    /// else.
    InvalidDigit,
    /// The number is too large for sixty-four bits.
    PosOverflow,
    /// The number is too small for sixty-four bits.
    NegOverflow,
}

/// The first line that is not a number, counted from zero, and why.
#[derive(Debug, Clone, Copy, PartialEq, Eq, Structural)]
pub struct LineError {
    pub line: usize,
    pub kind: NumberError,
}

/// Whether `byte` is a decimal digit.
pub open spec fn is_digit(byte: u8) -> bool {
    48 <= byte <= 57
}

/// The number that the digits `bytes` stand for, taken with the given sign.
/// Digits are read from the left; the first byte that is not a digit, or the
/// first digit with which the number leaves the range of sixty-four bits,
/// ends the reading with an error.
pub open spec fn read_digits(bytes: Seq<u8>, negative: bool) -> Result<int, NumberError>
    decreases bytes.len(),
{
    if bytes.len() == 0 {
        Ok(0)
    } else {
        match read_digits(bytes.drop_last(), negative) {
            Err(error) => Err(error),
            Ok(before) => {
                let digit = bytes.last() - 48;
                let value = if negative {
                    before * 10 - digit
                } else {
                    before * 10 + digit
                };
                if !is_digit(bytes.last()) {
                    Err(NumberError::InvalidDigit)
                } else if value > i64::MAX {
                    Err(NumberError::PosOverflow)
                } else if value < i64::MIN {
                    Err(NumberError::NegOverflow)
                } else {
                    Ok(value)
                }
            },
        }
    }
}

/// The number that `bytes` stands for: an optional sign, `+` or `-`, and
/// then digits, at least one, and nothing else.
pub open spec fn read_number(bytes: Seq<u8>) -> Result<int, NumberError> {
    if bytes.len() == 0 {
        Err(NumberError::Empty)
    } else if bytes[0] == 43 || bytes[0] == 45 {
        if bytes.len() == 1 {
            Err(NumberError::InvalidDigit)
        } else {
            read_digits(bytes.skip(1), bytes[0] == 45)
        }
    } else {
        read_digits(bytes, false)
    }
}

/// Reads the digits `bytes[from..]` with the given sign.
fn parse_digits(bytes: &[u8], from: usize, negative: bool) -> (result: Result<i64, NumberError>)
    requires
        from <= bytes.len(),
    ensures
        match result {
            Ok(value) => read_digits(bytes@.skip(from as int), negative) == Ok::<int, NumberError>(
                value as int,
            ),
            Err(error) => read_digits(bytes@.skip(from as int), negative) == Err::<
                int,
                NumberError,
            >(error),
        },
{
    let ghost digits = bytes@.skip(from as int);
    let mut value: i64 = 0;
    let mut i: usize = from;
    proof {
        assert(digits.take(0).len() == 0);
    }
    while i < bytes.len()
        invariant
            from <= i <= bytes.len(),
            digits == bytes@.skip(from as int),
            read_digits(digits.take(i - from), negative) == Ok::<int, NumberError>(value as int),
        decreases bytes.len() - i,
    {
        let byte = bytes[i];
        proof {
            let upto = digits.take(i - from + 1);
            assert(upto.drop_last() =~= digits.take(i - from));
            assert(upto.last() == byte);
        }
        if byte < 48 || byte > 57 {
            proof {
                lemma_error_stays(digits, i - from + 1, negative);
            }
            return Err(NumberError::InvalidDigit);
        }
        let digit: i128 = (byte - 48) as i128;
        let wide: i128 = if negative {
            value as i128 * 10 - digit
        } else {
            value as i128 * 10 + digit
        };
        if wide > i64::MAX as i128 {
            proof {
                lemma_error_stays(digits, i - from + 1, negative);
            }
            return Err(NumberError::PosOverflow);
        }
        if wide < i64::MIN as i128 {
            proof {
                lemma_error_stays(digits, i - from + 1, negative);
            }
            return Err(NumberError::NegOverflow);
        }
        value = wide as i64;
        i += 1;
    }
    proof {
        assert(digits.take(i - from) =~= digits);
    }
    Ok(value)
}

/// Once the reading of digits has ended with an error, more bytes do not
/// change the error.
proof fn lemma_error_stays(bytes: Seq<u8>, upto: int, negative: bool)
    requires
        0 <= upto <= bytes.len(),
        read_digits(bytes.take(upto), negative) is Err,
    ensures
        read_digits(bytes, negative) == read_digits(bytes.take(upto), negative),
    decreases bytes.len(),
{
    if upto == bytes.len() {
        assert(bytes.take(upto) =~= bytes);
    } else {
        assert(bytes.drop_last().take(upto) =~= bytes.take(upto));
        lemma_error_stays(bytes.drop_last(), upto, negative);
    }
}

/// Reads a number: an optional sign and then decimal digits, with nothing
/// before, between or after them.
pub fn parse_number(text: &str) -> (result: Result<i64, NumberError>)
    ensures
        match result {
            Ok(value) => read_number(vstd::utf8::encode_utf8(text@)) == Ok::<int, NumberError>(
                value as int,
            ),
            Err(error) => read_number(vstd::utf8::encode_utf8(text@)) == Err::<int, NumberError>(
                error,
            ),
        },
{
    let bytes = text.as_bytes();
    if bytes.len() == 0 {
        return Err(NumberError::Empty);
    }
    let first = bytes[0];
    if first == 43 || first == 45 {
        if bytes.len() == 1 {
            Err(NumberError::InvalidDigit)
        } else {
            parse_digits(bytes, 1, first == 45)
        }
    } else {
        assert(bytes@.skip(0) =~= bytes@);
        parse_digits(bytes, 0, false)
    }
}

/// Whether every one of the first `upto` lines is a number, and `numbers`
/// holds them in order.
pub open spec fn holds_numbers(lines: Seq<String>, numbers: Seq<i64>, upto: int) -> bool {
    &&& numbers.len() == upto
    &&& forall|i: int|
        0 <= i < upto ==> read_number(vstd::utf8::encode_utf8((#[trigger] lines[i])@)) == Ok::<
            int,
            NumberError,
        >(numbers[i] as int)
}

/// Reads the numbers of `lines`, one on each line. The result is all of
/// them, in order, or the first line that is not a number.
pub fn read_numbers(lines: &Vec<String>) -> (result: Result<Vec<i64>, LineError>)
    ensures
        match result {
            Ok(numbers) => holds_numbers(lines@, numbers@, lines@.len() as int),
            Err(error) => {
                &&& error.line < lines@.len()
                &&& read_number(vstd::utf8::encode_utf8(lines@[error.line as int]@)) == Err::<
                    int,
                    NumberError,
                >(error.kind)
                &&& forall|i: int|
                    0 <= i < error.line ==> read_number(
                        vstd::utf8::encode_utf8((#[trigger] lines@[i])@),
                    ) is Ok
            },
        },
{
    let mut numbers: Vec<i64> = Vec::new();
    let mut i: usize = 0;
    while i < lines.len()
        invariant
            i <= lines.len(),
            holds_numbers(lines@, numbers@, i as int),
        decreases lines.len() - i,
    {
        match parse_number(lines[i].as_str()) {
            Ok(number) => {
                numbers.push(number);
            },
            Err(kind) => {
                return Err(LineError { line: i, kind });
            },
        }
        i += 1;
    }
    Ok(numbers)
}

} // verus!
