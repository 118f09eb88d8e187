//! The ways in which loading, measuring and rasterizing can fail.

use crate::glyph::RasterizedGlyph;
use crate::types::FontDesc;
use vstd::prelude::*;
use vstd::std_specs::convert::FromSpecImpl;

verus! {

/// Why an operation of the rasterizer did not deliver.
#[derive(Debug)]
pub enum Error {
    /// No installed family, or no face in the family, answers the description.
    FontNotFound(FontDesc),
    /// The key was not issued by the rasterizer it was handed to.
    UnknownFontKey,
    /// The face has no metrics for the glyph that widths are measured by.
    MetricsNotFound,
    /// No face has the character; the glyph drawn in its place comes along.
    MissingGlyph(RasterizedGlyph),
    /// The platform failed; the message ends with the status code that the
    /// platform gave, where it gave one.
    PlatformError(String),
}

/// Why the platform delivered no texture for a glyph.
#[derive(Clone, Copy, Debug, PartialEq, Eq, Structural)]
pub enum AnalysisFailure {
    /// The glyph analysis interface could not be obtained: making it ended
    /// with this status code.
    Unavailable(i32),
    /// An analysis call returned this status code.
    Status(i32),
    /// The analysis delivered bounds that no glyph can have, or samples that
    /// do not fill the bounds.
    InvalidTexture,
}

/// The 32 bits of a status code, read as an unsigned number.
pub open spec fn status_bits(status: i32) -> nat {
    if status >= 0 {
        status as nat
    } else {
        (status + 0x1_0000_0000) as nat
    }
}

/// The upper-case hexadecimal digit for a value below sixteen.
pub open spec fn hex_digit(value: nat) -> char {
    if value == 0 {
        '0'
    } else if value == 1 {
        '1'
    } else if value == 2 {
        '2'
    } else if value == 3 {
        '3'
    } else if value == 4 {
        '4'
    } else if value == 5 {
        '5'
    } else if value == 6 {
        '6'
    } else if value == 7 {
        '7'
    } else if value == 8 {
        '8'
    } else if value == 9 {
        '9'
    } else if value == 10 {
        'A'
    } else if value == 11 {
        'B'
    } else if value == 12 {
        'C'
    } else if value == 13 {
        'D'
    } else if value == 14 {
        'E'
    } else {
        'F'
    }
}

/// A number in upper-case hexadecimal, without leading zeros.
pub open spec fn upper_hex(value: nat) -> Seq<char>
    decreases value,
{
    if value < 16 {
        seq![hex_digit(value)]
    } else {
        upper_hex(value / 16).push(hex_digit(value % 16))
    }
}

/// The message for a status code: a fixed sentence, then the code's bits in
/// upper-case hexadecimal.
pub open spec fn status_message(status: i32) -> Seq<char> {
    "a DirectWrite rendering error occurred: "@ + upper_hex(status_bits(status))
}

/// The message for an analysis interface that could not be obtained: a
/// fixed sentence, then the status code's bits in upper-case hexadecimal.
pub open spec fn unavailable_message(status: i32) -> Seq<char> {
    "IDWriteFactory3 not available: "@ + upper_hex(status_bits(status))
}

/// The message for a failed glyph analysis. Where the platform gave a status
/// code, the message ends with it.
pub open spec fn failure_message(failure: AnalysisFailure) -> Seq<char> {
    match failure {
        AnalysisFailure::Unavailable(status) => unavailable_message(status),
        AnalysisFailure::Status(status) => status_message(status),
        AnalysisFailure::InvalidTexture => "DirectWrite returned an invalid glyph texture"@,
    }
}

/// The value of an upper-case hexadecimal digit.
pub open spec fn digit_value(digit: char) -> nat {
    if digit == '0' {
        0
    } else if digit == '1' {
        1
    } else if digit == '2' {
        2
    } else if digit == '3' {
        3
    } else if digit == '4' {
        4
    } else if digit == '5' {
        5
    } else if digit == '6' {
        6
    } else if digit == '7' {
        7
    } else if digit == '8' {
        8
    } else if digit == '9' {
        9
    } else if digit == 'A' {
        10
    } else if digit == 'B' {
        11
    } else if digit == 'C' {
        12
    } else if digit == 'D' {
        13
    } else if digit == 'E' {
        14
    } else {
        15
    }
}

/// The number that a row of hexadecimal digits stands for.
pub open spec fn hex_value(digits: Seq<char>) -> nat
    decreases digits.len(),
{
    if digits.len() == 0 {
        0
    } else {
        16 * hex_value(digits.drop_last()) + digit_value(digits.last())
    }
}

/// The digits of a number stand for that number, and start with a zero only
/// where the number is zero.
pub proof fn lemma_upper_hex_reads_back(value: nat)
    ensures
        hex_value(upper_hex(value)) == value,
        upper_hex(value).len() >= 1,
        value > 0 ==> upper_hex(value)[0] != '0',
    decreases value,
{
    if value < 16 {
        let digits = upper_hex(value);
        assert(digits.drop_last() =~= Seq::<char>::empty());
        assert(hex_value(digits.drop_last()) == 0);
    } else {
        lemma_upper_hex_reads_back(value / 16);
        let front = upper_hex(value / 16);
        let digits = upper_hex(value);
        assert(digits.drop_last() =~= front);
        assert(digits.last() == hex_digit(value % 16));
        assert(digits[0] == front[0]);
    }
}

/// The message of a status code names all 32 bits of the code, and codes
/// that differ have messages that differ.
pub proof fn lemma_status_message_tells_codes_apart(first: i32, second: i32)
    ensures
        status_bits(first) < 0x1_0000_0000,
        first != second ==> status_message(first) != status_message(second),
{
    if first != second && status_message(first) == status_message(second) {
        let prefix = "a DirectWrite rendering error occurred: "@;
        let one = upper_hex(status_bits(first));
        let two = upper_hex(status_bits(second));
        assert((prefix + one).subrange(prefix.len() as int, (prefix + one).len() as int) =~= one);
        assert((prefix + two).subrange(prefix.len() as int, (prefix + two).len() as int) =~= two);
        lemma_upper_hex_reads_back(status_bits(first));
        lemma_upper_hex_reads_back(status_bits(second));
    }
}

/// The message of every failure for which the platform gave a status code
/// ends with that code in upper-case hexadecimal.
pub proof fn lemma_failure_message_carries_status(failure: AnalysisFailure)
    ensures
        match failure {
            AnalysisFailure::Unavailable(status) | AnalysisFailure::Status(status) => {
                let message = failure_message(failure);
                let code = upper_hex(status_bits(status));
                &&& message.len() >= code.len()
                &&& message.subrange(message.len() - code.len(), message.len() as int) == code
                &&& hex_value(code) == status_bits(status)
            },
            AnalysisFailure::InvalidTexture => true,
        },
{
    match failure {
        AnalysisFailure::Unavailable(status) => {
            let sentence = "IDWriteFactory3 not available: "@;
            let code = upper_hex(status_bits(status));
            assert((sentence + code).subrange(sentence.len() as int, (sentence + code).len() as int)
                =~= code);
            lemma_upper_hex_reads_back(status_bits(status));
        },
        AnalysisFailure::Status(status) => {
            let sentence = "a DirectWrite rendering error occurred: "@;
            let code = upper_hex(status_bits(status));
            assert((sentence + code).subrange(sentence.len() as int, (sentence + code).len() as int)
                =~= code);
            lemma_upper_hex_reads_back(status_bits(status));
        },
        AnalysisFailure::InvalidTexture => {},
    }
}

fn hex_digit_str(value: u32) -> (digit: &'static str)
    requires
        value < 16,
    ensures
        digit@ == seq![hex_digit(value as nat)],
{
    proof {
        reveal_strlit("0");
        reveal_strlit("1");
        reveal_strlit("2");
        reveal_strlit("3");
        reveal_strlit("4");
        reveal_strlit("5");
        reveal_strlit("6");
        reveal_strlit("7");
        reveal_strlit("8");
        reveal_strlit("9");
        reveal_strlit("A");
        reveal_strlit("B");
        reveal_strlit("C");
        reveal_strlit("D");
        reveal_strlit("E");
        reveal_strlit("F");
    }
    let digit = if value == 0 {
        "0"
    } else if value == 1 {
        "1"
    } else if value == 2 {
        "2"
    } else if value == 3 {
        "3"
    } else if value == 4 {
        "4"
    } else if value == 5 {
        "5"
    } else if value == 6 {
        "6"
    } else if value == 7 {
        "7"
    } else if value == 8 {
        "8"
    } else if value == 9 {
        "9"
    } else if value == 10 {
        "A"
    } else if value == 11 {
        "B"
    } else if value == 12 {
        "C"
    } else if value == 13 {
        "D"
    } else if value == 14 {
        "E"
    } else {
        "F"
    };
    assert(digit@ =~= seq![hex_digit(value as nat)]);
    digit
}

fn append_upper_hex(text: &mut String, value: u32)
    ensures
        final(text)@ == old(text)@ + upper_hex(value as nat),
    decreases value,
{
    if value >= 16 {
        append_upper_hex(text, value / 16);
    }
    text.append(hex_digit_str(value % 16));
    assert(text@ =~= old(text)@ + upper_hex(value as nat));
}

fn with_status(sentence: &str, status: i32) -> (message: String)
    ensures
        message@ == sentence@ + upper_hex(status_bits(status)),
{
    let bits: u32 = if status >= 0 {
        status as u32
    } else {
        (status - i32::MIN) as u32 + 0x8000_0000u32
    };
    let mut message = String::from_str(sentence);
    append_upper_hex(&mut message, bits);
    message
}

impl Error {
    /// The error for a status code that the platform returned.
    pub fn from_status(status: i32) -> (error: Error)
        ensures
            error matches Error::PlatformError(message) && message@ == status_message(status),
    {
        Error::PlatformError(with_status("a DirectWrite rendering error occurred: ", status))
    }

    /// The error for a glyph analysis that delivered no texture.
    pub fn from_failure(failure: AnalysisFailure) -> (error: Error)
        ensures
            error matches Error::PlatformError(message) && message@ == failure_message(failure),
    {
        match failure {
            AnalysisFailure::Unavailable(status) => Error::PlatformError(
                with_status("IDWriteFactory3 not available: ", status),
            ),
            AnalysisFailure::Status(status) => Error::from_status(status),
            AnalysisFailure::InvalidTexture => Error::PlatformError(
                String::from_str("DirectWrite returned an invalid glyph texture"),
            ),
        }
    }
}

impl FromSpecImpl<i32> for Error {
    /// A message can be stated by its characters only, not as a value, so
    /// `from` says itself what it returns and `from_spec` says nothing.
    open spec fn obeys_from_spec() -> bool {
        false
    }

    open spec fn from_spec(status: i32) -> Error {
        arbitrary()
    }
}

impl From<i32> for Error {
    /// The error for a status code that the platform returned.
    fn from(status: i32) -> (error: Error)
        ensures
            error matches Error::PlatformError(message) && message@ == status_message(status),
    {
        Error::from_status(status)
    }
}

} // verus!
