//! Cutting the sermon out of a video: what the transcoder is told, and what
//! its exit status means.

use vstd::prelude::*;
use vstd::string::StringExecFns;
use crate::text::texts;

verus! {

/// The transcoder ended with a status other than success.
#[derive(Clone, Copy, Debug, PartialEq, Eq, Structural)]
pub struct EncodeError {
    /// The exit code that the transcoder reported, if it reported one.
    pub status: Option<i32>,
}

/// The character of a digit below ten.
pub open spec fn digit_char(d: nat) -> char {
    if d == 0 {
        '0'
    } else if d == 1 {
        '1'
    } else if d == 2 {
        '2'
    } else if d == 3 {
        '3'
    } else if d == 4 {
        '4'
    } else if d == 5 {
        '5'
    } else if d == 6 {
        '6'
    } else if d == 7 {
        '7'
    } else if d == 8 {
        '8'
    } else {
        '9'
    }
}

/// A number written in base ten, without leading zeros.
pub open spec fn decimal_text(n: nat) -> Seq<char>
    decreases n,
{
    if n < 10 {
        seq![digit_char(n)]
    } else {
        decimal_text(n / 10).push(digit_char(n % 10))
    }
}

/// What the transcoder is told: overwrite the output, read `input`, seek to
/// `start` seconds, encode `length` seconds, drop the video stream, encode
/// the audio as MP3, write `output`.
pub open spec fn trim_command(
    input: Seq<char>,
    output: Seq<char>,
    start: u32,
    length: u32,
) -> Seq<Seq<char>> {
    seq![
        "-y"@,
        "-i"@,
        input,
        "-ss"@,
        decimal_text(start as nat),
        "-t"@,
        decimal_text(length as nat),
        "-vn"@,
        "-acodec"@,
        "libmp3lame"@,
        output,
    ]
}

/// Whatever is cut, the transcoder is told to overwrite its output, and the
/// output is named last: cutting twice with the same inputs writes the same
/// file twice, never a second or a longer one.
pub proof fn lemma_trim_command_overwrites(
    input: Seq<char>,
    output: Seq<char>,
    start: u32,
    length: u32,
)
    ensures
        trim_command(input, output, start, length).first() == "-y"@,
        trim_command(input, output, start, length).last() == output,
{
}

/// The character of a digit below ten.
pub fn digit_for(d: u32) -> (out: char)
    requires
        d < 10,
    ensures
        out == digit_char(d as nat),
{
    if d == 0 {
        '0'
    } else if d == 1 {
        '1'
    } else if d == 2 {
        '2'
    } else if d == 3 {
        '3'
    } else if d == 4 {
        '4'
    } else if d == 5 {
        '5'
    } else if d == 6 {
        '6'
    } else if d == 7 {
        '7'
    } else if d == 8 {
        '8'
    } else {
        '9'
    }
}

/// Appends the digits of `n` to `out`.
fn push_decimal(n: u32, out: &mut String)
    ensures
        final(out)@ == old(out)@ + decimal_text(n as nat),
    decreases n,
{
    if n >= 10 {
        push_decimal(n / 10, out);
    }
    let c = digit_for(n % 10);
    out.push(c);
    assert(out@ =~= old(out)@ + decimal_text(n as nat));
}

/// The number `n` written in base ten.
pub fn decimal_string(n: u32) -> (out: String)
    ensures
        out@ == decimal_text(n as nat),
{
    let mut out = String::new();
    push_decimal(n, &mut out);
    assert(Seq::<char>::empty() + decimal_text(n as nat) =~= decimal_text(n as nat));
    out
}

/// The arguments for the transcoder that cut `length` seconds of audio from
/// `input`, beginning at `start` seconds, into `output`.
pub fn trim_arguments(input: &str, output: &str, start: u32, length: u32) -> (out: Vec<String>)
    ensures
        texts(out@) == trim_command(input@, output@, start, length),
{
    let mut out: Vec<String> = Vec::new();
    out.push(String::from_str("-y"));
    out.push(String::from_str("-i"));
    out.push(String::from_str(input));
    out.push(String::from_str("-ss"));
    out.push(decimal_string(start));
    out.push(String::from_str("-t"));
    out.push(decimal_string(length));
    out.push(String::from_str("-vn"));
    out.push(String::from_str("-acodec"));
    out.push(String::from_str("libmp3lame"));
    out.push(String::from_str(output));
    assert(texts(out@) =~= trim_command(input@, output@, start, length));
    out
}

/// What the exit of the transcoder means: success for the exit code 0, and
/// otherwise an error that carries the status.
pub fn trim_audio(exit_code: Option<i32>) -> (out: Result<(), EncodeError>)
    ensures
        exit_code == Some(0i32) ==> out is Ok,
        exit_code != Some(0i32) ==> out == Err::<(), EncodeError>(EncodeError { status: exit_code }),
{
    match exit_code {
        Some(code) => {
            if code == 0 {
                Ok(())
            } else {
                Err(EncodeError { status: exit_code })
            }
        },
        None => Err(EncodeError { status: exit_code }),
    }
}

} // verus!
