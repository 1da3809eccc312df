//! The dispatcher's fixed texts: the usage lines and the uniform one-line
//! reports for success, operation failure, and parse failure.

use vstd::prelude::*;
use vstd::string::StringExecFns;

use crate::parser::{Command, ParseError};

verus! {

pub open spec fn spec_success_line(c: Command) -> Seq<char> {
    "[SUC] Operation <"@ + c.spec_label() + "> Success!"@
}

/// The line reported after an operation succeeds.
pub fn success_line(c: Command) -> (r: String)
    ensures
        r@ == spec_success_line(c),
{
    let mut r = "[SUC] Operation <".to_owned();
    r.append(c.label());
    r.append("> Success!");
    r
}

pub open spec fn spec_failure_line(c: Command) -> Seq<char> {
    "[ERR] Operation <"@ + c.spec_label() + "> Fail!"@
}

/// The line reported after an operation fails, below its own error message.
pub fn failure_line(c: Command) -> (r: String)
    ensures
        r@ == spec_failure_line(c),
{
    let mut r = "[ERR] Operation <".to_owned();
    r.append(c.label());
    r.append("> Fail!");
    r
}

pub open spec fn spec_parse_error_line(e: ParseError) -> Seq<char> {
    "[ERR] Parsing Error! "@ + e.spec_message()
}

/// The line reported when registry lookup or argument binding fails; no
/// operation runs after it.
pub fn parse_error_line(e: &ParseError) -> (r: String)
    ensures
        r@ == spec_parse_error_line(*e),
{
    let mut r = "[ERR] Parsing Error! ".to_owned();
    let m = e.message();
    r.append(m.as_str());
    r
}

/// The fixed usage text, one element per line, printed when the token list
/// is empty.
pub fn usage_text() -> (r: Vec<String>)
    ensures
        r@.len() == 3,
        r@[0]@ == "USAGE (when in doubt, use a .png extension on your filenames)"@,
        r@[1]@ == "blur INFILE OUTFILE"@,
        r@[2]@ == "fractal OUTFILE"@,
{
    let mut v: Vec<String> = Vec::new();
    v.push("USAGE (when in doubt, use a .png extension on your filenames)".to_owned());
    v.push("blur INFILE OUTFILE".to_owned());
    v.push("fractal OUTFILE".to_owned());
    v
}

} // verus!
