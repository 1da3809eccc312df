//! The operations behind the registry: each one validates and parses its
//! typed arguments out of the bound slot map and yields an `Action`, the
//! typed record of exactly one transformation for the process to perform,
//! or a structured operation error. No operation touches the outside world.

use vstd::prelude::*;
use vstd::pervasive::unreached;
use vstd::string::StringExecFns;

use crate::parser::{schema_of, Command, CommandLineArgs, CommandOp};
use crate::text::{i32_str_val, is_float_literal, is_i32_str, is_u32_str, u32_str_val};
use crate::text::{is_float_token, parse_i32, parse_u32};

verus! {

/// A clockwise rotation by a multiple of a quarter turn.
#[derive(Clone, Copy, Debug, PartialEq, Eq, Structural)]
pub enum Rotation {
    R0,
    R90,
    R180,
    R270,
}

/// A validated, typed operation record: the one transformation the process
/// is to perform, with its arguments already parsed.
#[derive(Debug)]
pub enum Action {
    Blur { infile: String, outfile: String, blur_value: String },
    Brighten { infile: String, outfile: String, amount: i32 },
    Crop { infile: String, outfile: String, x: u32, y: u32, width: u32, height: u32 },
    Rotate { infile: String, outfile: String, rotation: Rotation },
    Invert { infile: String, outfile: String },
    Grayscale { infile: String, outfile: String },
    Generate { outfile: String },
    Fractal { outfile: String },
}

/// Spec-level image of an `Action`.
pub enum PlanModel {
    Blur { infile: Seq<char>, outfile: Seq<char>, blur_value: Seq<char> },
    Brighten { infile: Seq<char>, outfile: Seq<char>, amount: int },
    Crop { infile: Seq<char>, outfile: Seq<char>, x: int, y: int, width: int, height: int },
    Rotate { infile: Seq<char>, outfile: Seq<char>, rotation: Rotation },
    Invert { infile: Seq<char>, outfile: Seq<char> },
    Grayscale { infile: Seq<char>, outfile: Seq<char> },
    Generate { outfile: Seq<char> },
    Fractal { outfile: Seq<char> },
}

impl View for Action {
    type V = PlanModel;

    open spec fn view(&self) -> PlanModel {
        match self {
            Action::Blur { infile, outfile, blur_value } => PlanModel::Blur {
                infile: infile@,
                outfile: outfile@,
                blur_value: blur_value@,
            },
            Action::Brighten { infile, outfile, amount } => PlanModel::Brighten {
                infile: infile@,
                outfile: outfile@,
                amount: amount as int,
            },
            Action::Crop { infile, outfile, x, y, width, height } => PlanModel::Crop {
                infile: infile@,
                outfile: outfile@,
                x: x as int,
                y: y as int,
                width: width as int,
                height: height as int,
            },
            Action::Rotate { infile, outfile, rotation } => PlanModel::Rotate {
                infile: infile@,
                outfile: outfile@,
                rotation: *rotation,
            },
            Action::Invert { infile, outfile } => PlanModel::Invert {
                infile: infile@,
                outfile: outfile@,
            },
            Action::Grayscale { infile, outfile } => PlanModel::Grayscale {
                infile: infile@,
                outfile: outfile@,
            },
            Action::Generate { outfile } => PlanModel::Generate { outfile: outfile@ },
            Action::Fractal { outfile } => PlanModel::Fractal { outfile: outfile@ },
        }
    }
}

/// Spec-level image of an operation failure.
pub enum OpFailModel {
    ParseFailure { slot: Seq<char>, value: Seq<char> },
    BadRotation,
}

/// A failure of one operation's own argument parsing. No operation error
/// leaves a partial result behind: the action was never produced.
#[derive(Debug)]
pub enum OpError {
    /// The token bound to `slot` could not be read at the type the slot
    /// requires; `value` is the offending raw token.
    ParseFailure { slot: String, value: String },
    /// The rotation angle read as a number but is not a multiple of 90.
    BadRotation,
}

impl View for OpError {
    type V = OpFailModel;

    open spec fn view(&self) -> OpFailModel {
        match self {
            OpError::ParseFailure { slot, value } => OpFailModel::ParseFailure {
                slot: slot@,
                value: value@,
            },
            OpError::BadRotation => OpFailModel::BadRotation,
        }
    }
}

impl OpError {
    pub open spec fn spec_message(&self) -> Seq<char> {
        match self {
            OpError::ParseFailure { slot, value } => "Parsing failed! Cannot read <"@ + slot@
                + ">: "@ + value@,
            OpError::BadRotation => "Parsing failed! Angle degree must be multiples of 90..."@,
        }
    }

    /// The message the dispatcher reports above the failure line.
    pub fn message(&self) -> (r: String)
        ensures
            r@ == self.spec_message(),
    {
        match self {
            OpError::ParseFailure { slot, value } => {
                let mut r = "Parsing failed! Cannot read <".to_owned();
                r.append(slot.as_str());
                r.append(">: ");
                r.append(value.as_str());
                proof {
                    assert(r@ =~= self.spec_message());
                }
                r
            },
            OpError::BadRotation => "Parsing failed! Angle degree must be multiples of 90...".to_owned(),
        }
    }
}

/// Spec-level image of an operation's result.
pub open spec fn res_model(r: Result<Action, OpError>) -> Result<PlanModel, OpFailModel> {
    match r {
        Ok(a) => Ok(a@),
        Err(e) => Err(e@),
    }
}

pub open spec fn parse_failure(slot: Seq<char>, m: Map<Seq<char>, Seq<char>>) -> OpFailModel {
    OpFailModel::ParseFailure { slot, value: m[slot] }
}

/// What each operation makes of a bound slot map: the typed plan it yields,
/// or the first of its parse and domain errors.
pub open spec fn plan_of(c: Command, m: Map<Seq<char>, Seq<char>>) -> Result<
    PlanModel,
    OpFailModel,
> {
    match c {
        Command::Blur => if is_float_literal(m["blur_value"@]) {
            Ok(
                PlanModel::Blur {
                    infile: m["infile"@],
                    outfile: m["outfile"@],
                    blur_value: m["blur_value"@],
                },
            )
        } else {
            Err(parse_failure("blur_value"@, m))
        },
        Command::Brighten => if is_i32_str(m["brighten_value"@]) {
            Ok(
                PlanModel::Brighten {
                    infile: m["infile"@],
                    outfile: m["outfile"@],
                    amount: i32_str_val(m["brighten_value"@]),
                },
            )
        } else {
            Err(parse_failure("brighten_value"@, m))
        },
        Command::Crop => if !is_u32_str(m["x"@]) {
            Err(parse_failure("x"@, m))
        } else if !is_u32_str(m["y"@]) {
            Err(parse_failure("y"@, m))
        } else if !is_u32_str(m["width"@]) {
            Err(parse_failure("width"@, m))
        } else if !is_u32_str(m["height"@]) {
            Err(parse_failure("height"@, m))
        } else {
            Ok(
                PlanModel::Crop {
                    infile: m["infile"@],
                    outfile: m["outfile"@],
                    x: u32_str_val(m["x"@]),
                    y: u32_str_val(m["y"@]),
                    width: u32_str_val(m["width"@]),
                    height: u32_str_val(m["height"@]),
                },
            )
        },
        Command::Rotate => if !is_u32_str(m["deg_rotation"@]) {
            Err(parse_failure("deg_rotation"@, m))
        } else {
            let d = u32_str_val(m["deg_rotation"@]) % 360;
            if d == 0 {
                Ok(
                    PlanModel::Rotate {
                        infile: m["infile"@],
                        outfile: m["outfile"@],
                        rotation: Rotation::R0,
                    },
                )
            } else if d == 90 {
                Ok(
                    PlanModel::Rotate {
                        infile: m["infile"@],
                        outfile: m["outfile"@],
                        rotation: Rotation::R90,
                    },
                )
            } else if d == 180 {
                Ok(
                    PlanModel::Rotate {
                        infile: m["infile"@],
                        outfile: m["outfile"@],
                        rotation: Rotation::R180,
                    },
                )
            } else if d == 270 {
                Ok(
                    PlanModel::Rotate {
                        infile: m["infile"@],
                        outfile: m["outfile"@],
                        rotation: Rotation::R270,
                    },
                )
            } else {
                Err(OpFailModel::BadRotation)
            }
        },
        Command::Invert => Ok(
            PlanModel::Invert { infile: m["infile"@], outfile: m["outfile"@] },
        ),
        Command::Grayscale => Ok(
            PlanModel::Grayscale { infile: m["infile"@], outfile: m["outfile"@] },
        ),
        Command::Generate => Ok(PlanModel::Generate { outfile: m["outfile"@] }),
        Command::Fractal => Ok(PlanModel::Fractal { outfile: m["outfile"@] }),
        Command::Unresolved => arbitrary(),
    }
}

/// Reads one bound slot's raw token text.
fn get_arg(command_line_args: &CommandLineArgs, slot: &'static str) -> (r: String)
    requires
        command_line_args.args_view().contains_key(slot@),
    ensures
        r@ == command_line_args.args_view()[slot@],
{
    match command_line_args.args.get(slot) {
        Some(v) => v.clone(),
        None => unreached(),
    }
}

/// Plans a blur: succeeds exactly when `blur_value` reads as a float, and
/// keeps the raw value for the transformation.
pub fn blur(command_line_args: CommandLineArgs) -> (r: Result<Action, OpError>)
    requires
        command_line_args.args_view().contains_key("infile"@),
        command_line_args.args_view().contains_key("outfile"@),
        command_line_args.args_view().contains_key("blur_value"@),
    ensures
        res_model(r) == plan_of(Command::Blur, command_line_args.args_view()),
{
    let infile = get_arg(&command_line_args, "infile");
    let outfile = get_arg(&command_line_args, "outfile");
    let blur_value = get_arg(&command_line_args, "blur_value");
    if is_float_token(blur_value.as_str()) {
        Ok(Action::Blur { infile, outfile, blur_value })
    } else {
        Err(OpError::ParseFailure { slot: "blur_value".to_owned(), value: blur_value })
    }
}

/// Plans a brighten: succeeds exactly when `brighten_value` reads as an
/// `i32`, whose value becomes the brightening amount.
pub fn brighten(command_line_args: CommandLineArgs) -> (r: Result<Action, OpError>)
    requires
        command_line_args.args_view().contains_key("infile"@),
        command_line_args.args_view().contains_key("outfile"@),
        command_line_args.args_view().contains_key("brighten_value"@),
    ensures
        res_model(r) == plan_of(Command::Brighten, command_line_args.args_view()),
{
    let infile = get_arg(&command_line_args, "infile");
    let outfile = get_arg(&command_line_args, "outfile");
    let value = get_arg(&command_line_args, "brighten_value");
    match parse_i32(value.as_str()) {
        Some(amount) => Ok(Action::Brighten { infile, outfile, amount }),
        None => Err(OpError::ParseFailure { slot: "brighten_value".to_owned(), value }),
    }
}

/// Plans a crop: reads `x`, `y`, `width`, `height` as `u32`, failing on the
/// first slot that does not parse.
pub fn crop(command_line_args: CommandLineArgs) -> (r: Result<Action, OpError>)
    requires
        command_line_args.args_view().contains_key("infile"@),
        command_line_args.args_view().contains_key("outfile"@),
        command_line_args.args_view().contains_key("x"@),
        command_line_args.args_view().contains_key("y"@),
        command_line_args.args_view().contains_key("width"@),
        command_line_args.args_view().contains_key("height"@),
    ensures
        res_model(r) == plan_of(Command::Crop, command_line_args.args_view()),
{
    let infile = get_arg(&command_line_args, "infile");
    let outfile = get_arg(&command_line_args, "outfile");
    let x_value = get_arg(&command_line_args, "x");
    let x = match parse_u32(x_value.as_str()) {
        Some(n) => n,
        None => {
            return Err(OpError::ParseFailure { slot: "x".to_owned(), value: x_value });
        },
    };
    let y_value = get_arg(&command_line_args, "y");
    let y = match parse_u32(y_value.as_str()) {
        Some(n) => n,
        None => {
            return Err(OpError::ParseFailure { slot: "y".to_owned(), value: y_value });
        },
    };
    let width_value = get_arg(&command_line_args, "width");
    let width = match parse_u32(width_value.as_str()) {
        Some(n) => n,
        None => {
            return Err(OpError::ParseFailure { slot: "width".to_owned(), value: width_value });
        },
    };
    let height_value = get_arg(&command_line_args, "height");
    let height = match parse_u32(height_value.as_str()) {
        Some(n) => n,
        None => {
            return Err(OpError::ParseFailure { slot: "height".to_owned(), value: height_value });
        },
    };
    Ok(Action::Crop { infile, outfile, x, y, width, height })
}

/// Plans a rotation: `deg_rotation` must read as a `u32`, and its remainder
/// modulo 360 must be one of 0, 90, 180, 270.
pub fn rotate(command_line_args: CommandLineArgs) -> (r: Result<Action, OpError>)
    requires
        command_line_args.args_view().contains_key("infile"@),
        command_line_args.args_view().contains_key("outfile"@),
        command_line_args.args_view().contains_key("deg_rotation"@),
    ensures
        res_model(r) == plan_of(Command::Rotate, command_line_args.args_view()),
{
    let infile = get_arg(&command_line_args, "infile");
    let outfile = get_arg(&command_line_args, "outfile");
    let value = get_arg(&command_line_args, "deg_rotation");
    match parse_u32(value.as_str()) {
        Some(d) => {
            let rem = d % 360;
            if rem == 0 {
                Ok(Action::Rotate { infile, outfile, rotation: Rotation::R0 })
            } else if rem == 90 {
                Ok(Action::Rotate { infile, outfile, rotation: Rotation::R90 })
            } else if rem == 180 {
                Ok(Action::Rotate { infile, outfile, rotation: Rotation::R180 })
            } else if rem == 270 {
                Ok(Action::Rotate { infile, outfile, rotation: Rotation::R270 })
            } else {
                Err(OpError::BadRotation)
            }
        },
        None => Err(OpError::ParseFailure { slot: "deg_rotation".to_owned(), value }),
    }
}

/// Plans an inversion; it has no typed arguments to parse and cannot fail.
pub fn invert(command_line_args: CommandLineArgs) -> (r: Result<Action, OpError>)
    requires
        command_line_args.args_view().contains_key("infile"@),
        command_line_args.args_view().contains_key("outfile"@),
    ensures
        res_model(r) == plan_of(Command::Invert, command_line_args.args_view()),
{
    let infile = get_arg(&command_line_args, "infile");
    let outfile = get_arg(&command_line_args, "outfile");
    Ok(Action::Invert { infile, outfile })
}

/// Plans a grayscale conversion; it cannot fail.
pub fn grayscale(command_line_args: CommandLineArgs) -> (r: Result<Action, OpError>)
    requires
        command_line_args.args_view().contains_key("infile"@),
        command_line_args.args_view().contains_key("outfile"@),
    ensures
        res_model(r) == plan_of(Command::Grayscale, command_line_args.args_view()),
{
    let infile = get_arg(&command_line_args, "infile");
    let outfile = get_arg(&command_line_args, "outfile");
    Ok(Action::Grayscale { infile, outfile })
}

/// Plans the gradient generation. The `R`, `G`, `B` slots are bound but not
/// read by the transformation, so they are not validated here.
pub fn generate(command_line_args: CommandLineArgs) -> (r: Result<Action, OpError>)
    requires
        command_line_args.args_view().contains_key("outfile"@),
    ensures
        res_model(r) == plan_of(Command::Generate, command_line_args.args_view()),
{
    let outfile = get_arg(&command_line_args, "outfile");
    Ok(Action::Generate { outfile })
}

/// Plans the fractal generation; it cannot fail.
pub fn fractal(command_line_args: CommandLineArgs) -> (r: Result<Action, OpError>)
    requires
        command_line_args.args_view().contains_key("outfile"@),
    ensures
        res_model(r) == plan_of(Command::Fractal, command_line_args.args_view()),
{
    let outfile = get_arg(&command_line_args, "outfile");
    Ok(Action::Fractal { outfile })
}

/// The argument map holds every slot of the command's schema.
pub open spec fn has_schema_keys(c: Command, m: Map<Seq<char>, Seq<char>>) -> bool {
    forall|i: int| 0 <= i < schema_of(c).len() ==> m.contains_key(#[trigger] schema_of(c)[i])
}

impl CommandOp {
    /// The invocation behavior the record owns: dispatches to the one
    /// operation of its command, a closed sum-type dispatch.
    pub fn invoke(&self, command_line_args: CommandLineArgs) -> (r: Result<Action, OpError>)
        requires
            self.command_type != Command::Unresolved,
            has_schema_keys(self.command_type, command_line_args.args_view()),
        ensures
            res_model(r) == plan_of(self.command_type, command_line_args.args_view()),
    {
        match self.command_type {
            Command::Blur => {
                proof {
                    assert(schema_of(Command::Blur)[0] == "infile"@);
                    assert(schema_of(Command::Blur)[1] == "outfile"@);
                    assert(schema_of(Command::Blur)[2] == "blur_value"@);
                }
                blur(command_line_args)
            },
            Command::Brighten => {
                proof {
                    assert(schema_of(Command::Brighten)[0] == "infile"@);
                    assert(schema_of(Command::Brighten)[1] == "outfile"@);
                    assert(schema_of(Command::Brighten)[2] == "brighten_value"@);
                }
                brighten(command_line_args)
            },
            Command::Crop => {
                proof {
                    assert(schema_of(Command::Crop)[0] == "infile"@);
                    assert(schema_of(Command::Crop)[1] == "outfile"@);
                    assert(schema_of(Command::Crop)[2] == "x"@);
                    assert(schema_of(Command::Crop)[3] == "y"@);
                    assert(schema_of(Command::Crop)[4] == "width"@);
                    assert(schema_of(Command::Crop)[5] == "height"@);
                }
                crop(command_line_args)
            },
            Command::Rotate => {
                proof {
                    assert(schema_of(Command::Rotate)[0] == "infile"@);
                    assert(schema_of(Command::Rotate)[1] == "outfile"@);
                    assert(schema_of(Command::Rotate)[2] == "deg_rotation"@);
                }
                rotate(command_line_args)
            },
            Command::Invert => {
                proof {
                    assert(schema_of(Command::Invert)[0] == "infile"@);
                    assert(schema_of(Command::Invert)[1] == "outfile"@);
                }
                invert(command_line_args)
            },
            Command::Grayscale => {
                proof {
                    assert(schema_of(Command::Grayscale)[0] == "infile"@);
                    assert(schema_of(Command::Grayscale)[1] == "outfile"@);
                }
                grayscale(command_line_args)
            },
            Command::Generate => {
                proof {
                    assert(schema_of(Command::Generate)[0] == "outfile"@);
                }
                generate(command_line_args)
            },
            Command::Fractal => {
                proof {
                    assert(schema_of(Command::Fractal)[0] == "outfile"@);
                }
                fractal(command_line_args)
            },
            Command::Unresolved => unreached(),
        }
    }
}

} // verus!
