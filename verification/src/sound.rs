//! Volume control: parsing the volume query's output and building the
//! volume-setting command.

use vstd::prelude::*;

use crate::command::CommandLine;
use crate::outcome::{ParseError, ParseErrorView};
use crate::text::{
    parse_u8_decimal, spec_all_digits, spec_decimal_value, spec_u8_decimal, strip_suffix_str,
    u8_to_decimal,
};

verus! {

/// The volume hidden in the query's output: a decimal number, at most
/// 255, terminated by a newline.
pub open spec fn spec_volume(text: Seq<char>) -> Result<u8, ParseErrorView> {
    if text.len() == 0 || text.last() != '\n' {
        Err(ParseErrorView::MissingField)
    } else {
        let body = text.take(text.len() - 1);
        if body.len() > 0 && spec_all_digits(body) && spec_decimal_value(body) <= 255 {
            Ok(spec_decimal_value(body) as u8)
        } else {
            Err(ParseErrorView::NotANumber)
        }
    }
}

/// Read the volume out of the query command's output.
pub fn get_volume(output: &str) -> (r: Result<u8, ParseError>)
    ensures
        match r {
            Ok(v) => spec_volume(output@) == Ok::<u8, ParseErrorView>(v),
            Err(e) => spec_volume(output@) == Err::<u8, ParseErrorView>(e@),
        },
{
    match strip_suffix_str(output, "\n") {
        Some(front) => {
            proof {
                reveal_strlit("\n");
                assert(output@.len() >= 1);
                assert(output@.skip(output@.len() - 1)[0] == output@.last());
                assert(output@.last() == '\n');
            }
            match parse_u8_decimal(front.as_str()) {
                Some(v) => Ok(v),
                None => Err(ParseError::NotANumber),
            }
        },
        None => {
            proof {
                reveal_strlit("\n");
                let t = output@;
                if t.len() >= 1 && t.last() == '\n' {
                    assert(t.skip(t.len() - 1) =~= "\n"@);
                }
            }
            Err(ParseError::MissingField)
        },
    }
}

/// The command that sets the output volume. State-changing: the caller
/// spawns it and must not retry it silently.
pub fn set_volume(volume: u8) -> (cmd: CommandLine)
    ensures
        cmd@.program == "osascript"@,
        cmd@.args.len() == 2,
        cmd@.args[0] == "-e"@,
        cmd@.args[1] == "set volume output volume "@ + spec_u8_decimal(volume),
{
    let mut args: Vec<String> = Vec::new();
    args.push(String::from_str("-e"));
    let rendered = u8_to_decimal(volume);
    args.push(String::from_str("set volume output volume ").concat(rendered.as_str()));
    let cmd = CommandLine { program: String::from_str("osascript"), args };
    proof {
        assert(cmd@.args =~= seq!["-e"@, "set volume output volume "@ + spec_u8_decimal(volume)]);
    }
    cmd
}

} // verus!
