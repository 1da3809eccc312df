//! Command registry and positional-argument binding: the mapping from an
//! ordered list of command-line tokens to a resolved command together with a
//! slot-name-to-token binding, or a structured parse error.

use vstd::prelude::*;
use vstd::hash_map::StringHashMap;
use vstd::string::StringExecFns;

use crate::text::dec_str;
use crate::text::usize_to_string;

verus! {

/// The closed set of operation kinds. `Unresolved` is the "not yet
/// resolved" sentinel and never a valid dispatch target; its report label
/// stays "None".
#[derive(Clone, Copy, Debug, PartialEq, Eq, Structural)]
pub enum Command {
    Blur,
    Brighten,
    Crop,
    Rotate,
    Invert,
    Grayscale,
    Fractal,
    Generate,
    Unresolved,
}

/// The command a subcommand keyword resolves to; `Command::Unresolved` for a
/// keyword absent from the fixed table.
pub open spec fn cmd_of(k: Seq<char>) -> Command {
    if k == "blur"@ {
        Command::Blur
    } else if k == "brighten"@ {
        Command::Brighten
    } else if k == "crop"@ {
        Command::Crop
    } else if k == "rotate"@ {
        Command::Rotate
    } else if k == "invert"@ {
        Command::Invert
    } else if k == "grayscale"@ {
        Command::Grayscale
    } else if k == "generate"@ {
        Command::Generate
    } else if k == "fractal"@ {
        Command::Fractal
    } else {
        Command::Unresolved
    }
}

/// The ordered positional-argument schema of each command: which slots it
/// expects, in which order. Slot names within one schema are distinct.
pub open spec fn schema_of(c: Command) -> Seq<Seq<char>> {
    match c {
        Command::Blur => seq!["infile"@, "outfile"@, "blur_value"@],
        Command::Brighten => seq!["infile"@, "outfile"@, "brighten_value"@],
        Command::Crop => seq!["infile"@, "outfile"@, "x"@, "y"@, "width"@, "height"@],
        Command::Rotate => seq!["infile"@, "outfile"@, "deg_rotation"@],
        Command::Invert => seq!["infile"@, "outfile"@],
        Command::Grayscale => seq!["infile"@, "outfile"@],
        Command::Generate => seq!["outfile"@, "R"@, "G"@, "B"@],
        Command::Fractal => seq!["outfile"@],
        Command::Unresolved => seq![],
    }
}

impl Command {
    /// The name used in the dispatcher's report lines.
    pub open spec fn spec_label(&self) -> Seq<char> {
        match self {
            Command::Blur => "Blur"@,
            Command::Brighten => "Brighten"@,
            Command::Crop => "Crop"@,
            Command::Rotate => "Rotate"@,
            Command::Invert => "Invert"@,
            Command::Grayscale => "Grayscale"@,
            Command::Fractal => "Fractal"@,
            Command::Generate => "Generate"@,
            Command::Unresolved => "None"@,
        }
    }

    pub fn label(&self) -> (r: &'static str)
        ensures
            r@ == self.spec_label(),
    {
        match self {
            Command::Blur => "Blur",
            Command::Brighten => "Brighten",
            Command::Crop => "Crop",
            Command::Rotate => "Rotate",
            Command::Invert => "Invert",
            Command::Grayscale => "Grayscale",
            Command::Fractal => "Fractal",
            Command::Generate => "Generate",
            Command::Unresolved => "None",
        }
    }
}

/// Registry lookup: resolves the first token to a command, case-sensitively,
/// with no normalization. Unknown keywords yield `Command::Unresolved`.
pub fn resolve(keyword: &String) -> (c: Command)
    ensures
        c == cmd_of(keyword@),
{
    if *keyword == "blur".to_owned() {
        Command::Blur
    } else if *keyword == "brighten".to_owned() {
        Command::Brighten
    } else if *keyword == "crop".to_owned() {
        Command::Crop
    } else if *keyword == "rotate".to_owned() {
        Command::Rotate
    } else if *keyword == "invert".to_owned() {
        Command::Invert
    } else if *keyword == "grayscale".to_owned() {
        Command::Grayscale
    } else if *keyword == "generate".to_owned() {
        Command::Generate
    } else if *keyword == "fractal".to_owned() {
        Command::Fractal
    } else {
        Command::Unresolved
    }
}

/// The executable schema table, matching `schema_of`.
pub fn arg_list_of(c: Command) -> (v: Vec<&'static str>)
    ensures
        v.deep_view() == schema_of(c),
{
    let mut v: Vec<&'static str> = Vec::new();
    match c {
        Command::Blur => {
            v.push("infile");
            v.push("outfile");
            v.push("blur_value");
        },
        Command::Brighten => {
            v.push("infile");
            v.push("outfile");
            v.push("brighten_value");
        },
        Command::Crop => {
            v.push("infile");
            v.push("outfile");
            v.push("x");
            v.push("y");
            v.push("width");
            v.push("height");
        },
        Command::Rotate => {
            v.push("infile");
            v.push("outfile");
            v.push("deg_rotation");
        },
        Command::Invert => {
            v.push("infile");
            v.push("outfile");
        },
        Command::Grayscale => {
            v.push("infile");
            v.push("outfile");
        },
        Command::Generate => {
            v.push("outfile");
            v.push("R");
            v.push("G");
            v.push("B");
        },
        Command::Fractal => {
            v.push("outfile");
        },
        Command::Unresolved => {},
    }
    proof {
        assert(v.deep_view() =~~= schema_of(c));
    }
    v
}

/// Spec-level image of a parse error.
pub enum ParseFailModel {
    MissingSubcommand,
    UnknownCommand { keyword: Seq<char> },
    MissingArgument { slot: Seq<char>, position: int },
}

/// A failure of registry lookup or argument binding, with enough context to
/// reproduce it.
#[derive(Debug)]
pub enum ParseError {
    /// The token list was empty, so there was no subcommand to resolve.
    MissingSubcommand,
    /// The first token is not a keyword of the fixed table.
    UnknownCommand { keyword: String },
    /// Fewer tokens were supplied than the schema requires; `slot` is the
    /// first absent slot and `position` its zero-based index in the schema.
    MissingArgument { slot: String, position: usize },
}

impl ParseError {
    pub open spec fn model(&self) -> ParseFailModel {
        match self {
            ParseError::MissingSubcommand => ParseFailModel::MissingSubcommand,
            ParseError::UnknownCommand { keyword } => ParseFailModel::UnknownCommand {
                keyword: keyword@,
            },
            ParseError::MissingArgument { slot, position } => ParseFailModel::MissingArgument {
                slot: slot@,
                position: position as int,
            },
        }
    }

    pub open spec fn spec_message(&self) -> Seq<char> {
        match self {
            ParseError::MissingSubcommand => "Missing subcommand argument!"@,
            ParseError::UnknownCommand { .. } => "Mismatched Type!"@,
            ParseError::MissingArgument { slot, position } => "Missing "@ + slot@
                + " argument at arg pos "@ + dec_str(position as int) + "!"@,
        }
    }

    /// The message the dispatcher reports for this error.
    pub fn message(&self) -> (r: String)
        ensures
            r@ == self.spec_message(),
    {
        match self {
            ParseError::MissingSubcommand => "Missing subcommand argument!".to_owned(),
            ParseError::UnknownCommand { .. } => "Mismatched Type!".to_owned(),
            ParseError::MissingArgument { slot, position } => {
                let mut r = "Missing ".to_owned();
                r.append(slot.as_str());
                r.append(" argument at arg pos ");
                let p = usize_to_string(*position);
                r.append(p.as_str());
                r.append("!");
                proof {
                    assert(r@ =~= self.spec_message());
                }
                r
            },
        }
    }
}

/// The slot-name-to-token-text map, with the `String` values abstracted to
/// their character sequences.
pub open spec fn string_map_view(m: Map<Seq<char>, String>) -> Map<Seq<char>, Seq<char>> {
    Map::new(|k: Seq<char>| m.dom().contains(k), |k: Seq<char>| m[k]@)
}

/// Binding the first `n` schema slots: slot `i` takes token value `vals[i]`,
/// inserted in order into `m0` (a later duplicate slot would win).
pub open spec fn bind_into(
    m0: Map<Seq<char>, Seq<char>>,
    slots: Seq<Seq<char>>,
    vals: Seq<Seq<char>>,
    n: int,
) -> Map<Seq<char>, Seq<char>>
    decreases n,
{
    if n <= 0 {
        m0
    } else {
        bind_into(m0, slots, vals, n - 1).insert(slots[n - 1], vals[n - 1])
    }
}

/// A resolved command together with its bound arguments.
pub struct CommandLineArgs {
    pub command_type: Command,
    pub args: StringHashMap<String>,
}

impl CommandLineArgs {
    /// The bound arguments as a map from slot name to raw token text.
    pub open spec fn args_view(&self) -> Map<Seq<char>, Seq<char>> {
        string_map_view(self.args@)
    }

    /// Binds the slots of `arg_list`, in order, to the tokens of
    /// `command_line_args_str` starting at position 1 (position 0 holds the
    /// subcommand keyword). Token `i + 1` is bound verbatim to slot `i`.
    /// Fails fast on the first absent token, naming that slot and its
    /// position; extra tokens beyond the schema are ignored.
    pub fn process_args_by_arg_list(
        &mut self,
        arg_list: &Vec<&'static str>,
        command_line_args_str: &mut Vec<String>,
    ) -> (r: Result<(), ParseError>)
        ensures
            *final(command_line_args_str) == *old(command_line_args_str),
            final(self).command_type == old(self).command_type,
            ({
                let slots = arg_list.deep_view();
                let ts = old(command_line_args_str).deep_view();
                match r {
                    Ok(()) => {
                        &&& ts.len() >= slots.len() + 1 || slots.len() == 0
                        &&& final(self).args_view() == bind_into(
                            old(self).args_view(),
                            slots,
                            ts.skip(1),
                            slots.len() as int,
                        )
                    },
                    Err(e) => {
                        let pos: int = if ts.len() == 0 {
                            0
                        } else {
                            ts.len() - 1
                        };
                        &&& 0 < slots.len()
                        &&& ts.len() <= slots.len()
                        &&& pos < slots.len()
                        &&& e matches ParseError::MissingArgument { slot, position } && slot@
                            == slots[pos] && position as int == pos
                        &&& final(self).args_view() == bind_into(
                            old(self).args_view(),
                            slots,
                            ts.skip(1),
                            pos,
                        )
                    },
                }
            }),
    {
        let ghost slots = arg_list.deep_view();
        let ghost ts = command_line_args_str.deep_view();
        let ghost m0 = old(self).args_view();
        let n = arg_list.len();
        let t = command_line_args_str.len();
        let mut i: usize = 0;
        while i < n
            invariant
                0 <= i <= n,
                n == slots.len(),
                t == ts.len(),
                i == 0 || i + 1 <= t,
                slots == arg_list.deep_view(),
                ts == old(command_line_args_str).deep_view(),
                *command_line_args_str == *old(command_line_args_str),
                self.command_type == old(self).command_type,
                self.args_view() == bind_into(m0, slots, ts.skip(1), i as int),
                m0 == old(self).args_view(),
            decreases n - i,
        {
            if i + 1 >= t {
                let e = ParseError::MissingArgument { slot: arg_list[i].to_owned(), position: i };
                return Err(e);
            }
            let key: String = arg_list[i].to_owned();
            let val: String = command_line_args_str[i + 1].clone();
            proof {
                assert(key@ == slots[i as int]);
                assert(val@ == ts[i as int + 1]);
                assert(ts.skip(1)[i as int] == ts[i as int + 1]);
            }
            self.args.insert(key, val);
            proof {
                assert(self.args_view() =~= bind_into(m0, slots, ts.skip(1), i as int).insert(
                    slots[i as int],
                    ts.skip(1)[i as int],
                ));
            }
            i = i + 1;
        }
        Ok(())
    }
}

/// The command record handed to the dispatcher. The invocation behavior each
/// command owns is the `invoke` method, a closed sum-type dispatch.
#[derive(Debug)]
pub struct CommandOp {
    pub command_type: Command,
}

/// Spec-level image of a whole parse: what `Parser::parse` returns for any
/// token list, as a function of the tokens' character sequences alone.
pub open spec fn parse_model(ts: Seq<Seq<char>>) -> Result<
    (Command, Map<Seq<char>, Seq<char>>),
    ParseFailModel,
> {
    if ts.len() == 0 {
        Err(ParseFailModel::MissingSubcommand)
    } else {
        let c = cmd_of(ts[0]);
        if c == Command::Unresolved {
            Err(ParseFailModel::UnknownCommand { keyword: ts[0] })
        } else {
            let schema = schema_of(c);
            if ts.len() >= schema.len() + 1 {
                Ok((c, bind_into(Map::empty(), schema, ts.skip(1), schema.len() as int)))
            } else {
                Err(
                    ParseFailModel::MissingArgument {
                        slot: schema[ts.len() - 1],
                        position: ts.len() - 1,
                    },
                )
            }
        }
    }
}

pub struct Parser {}

impl Parser {
    /// Resolves `command_line_args_str[0]` against the registry and binds the
    /// remaining tokens to the command's schema. Returns exactly what
    /// `parse_model` says for these tokens: the command record and bound
    /// arguments on success, and otherwise the first error of
    /// missing-subcommand, unknown-command, or missing-argument.
    pub fn parse(&self, command_line_args_str: &mut Vec<String>) -> (r: Result<
        (CommandOp, CommandLineArgs),
        ParseError,
    >)
        ensures
            *final(command_line_args_str) == *old(command_line_args_str),
            ({
                let ts = old(command_line_args_str).deep_view();
                match r {
                    Ok((op, cla)) => parse_model(ts) matches Ok((c, m)) && op.command_type == c
                        && cla.command_type == c && cla.args_view() == m,
                    Err(e) => parse_model(ts) matches Err(f) && e.model() == f,
                }
            }),
    {
        let ghost ts = command_line_args_str.deep_view();
        if command_line_args_str.len() == 0 {
            return Err(ParseError::MissingSubcommand);
        }
        let subcommand: String = command_line_args_str[0].clone();
        proof {
            assert(subcommand@ == ts[0]);
        }
        let command_type = resolve(&subcommand);
        if command_type == Command::Unresolved {
            return Err(ParseError::UnknownCommand { keyword: subcommand });
        }
        let mut command_line_args = CommandLineArgs { command_type, args: StringHashMap::new() };
        proof {
            assert(command_line_args.args_view() =~= Map::<Seq<char>, Seq<char>>::empty());
        }
        let arg_list = arg_list_of(command_type);
        match command_line_args.process_args_by_arg_list(&arg_list, command_line_args_str) {
            Ok(()) => {
                let command_op = CommandOp { command_type };
                Ok((command_op, command_line_args))
            },
            Err(e) => Err(e),
        }
    }
}

} // verus!
