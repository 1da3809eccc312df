//! Laws of the dispatch core, stated over the spec-level models that the
//! executable functions' contracts are written against.

use vstd::prelude::*;

use crate::ops::plan_of;
use crate::parser::{bind_into, cmd_of, parse_model, schema_of, Command, ParseFailModel};

verus! {

/// An empty token list parses to the missing-subcommand failure: no registry
/// lookup is attempted and no bind can result.
pub proof fn lemma_empty_token_list(ts: Seq<Seq<char>>)
    requires
        ts.len() == 0,
    ensures
        parse_model(ts) == Err::<(Command, Map<Seq<char>, Seq<char>>), _>(
            ParseFailModel::MissingSubcommand,
        ),
{
}

/// A keyword absent from the fixed table parses to `UnknownCommand` naming
/// that keyword, never to a bind that an operation could be invoked on.
pub proof fn lemma_unknown_command(ts: Seq<Seq<char>>)
    requires
        ts.len() >= 1,
        cmd_of(ts[0]) == Command::Unresolved,
    ensures
        parse_model(ts) == Err::<(Command, Map<Seq<char>, Seq<char>>), _>(
            ParseFailModel::UnknownCommand { keyword: ts[0] },
        ),
{
}

/// Each command other than the sentinel is reached from exactly one keyword.
pub proof fn lemma_registry_entry_unique(c: Command, k1: Seq<char>, k2: Seq<char>)
    requires
        c != Command::Unresolved,
        cmd_of(k1) == c,
        cmd_of(k2) == c,
    ensures
        k1 == k2,
{
}

/// With a known command and fewer tokens than its schema requires, the parse
/// fails with `MissingArgument` naming the first absent slot -- the one at
/// index `len(tokens) - 1`, right after the last supplied token -- and never
/// yields a bind.
pub proof fn lemma_missing_argument_is_first(ts: Seq<Seq<char>>)
    requires
        ts.len() >= 1,
        cmd_of(ts[0]) != Command::Unresolved,
        ts.len() < schema_of(cmd_of(ts[0])).len() + 1,
    ensures
        parse_model(ts) == Err::<(Command, Map<Seq<char>, Seq<char>>), _>(
            ParseFailModel::MissingArgument {
                slot: schema_of(cmd_of(ts[0]))[ts.len() - 1],
                position: ts.len() - 1,
            },
        ),
{
}

/// Binding is insensitive to the values beyond the bound prefix.
proof fn lemma_bind_into_agree(
    m0: Map<Seq<char>, Seq<char>>,
    slots: Seq<Seq<char>>,
    v1: Seq<Seq<char>>,
    v2: Seq<Seq<char>>,
    n: int,
)
    requires
        forall|i: int| 0 <= i < n ==> v1[i] == v2[i],
    ensures
        bind_into(m0, slots, v1, n) == bind_into(m0, slots, v2, n),
    decreases n,
{
    if n > 0 {
        lemma_bind_into_agree(m0, slots, v1, v2, n - 1);
    }
}

/// Extra tokens are ignored: with a known command and at least as many
/// tokens as its schema requires, the parse succeeds, and it equals the
/// parse of just the keyword and the first `len(schema)` positional tokens.
pub proof fn lemma_extra_tokens_ignored(ts: Seq<Seq<char>>)
    requires
        ts.len() >= 1,
        cmd_of(ts[0]) != Command::Unresolved,
        ts.len() >= schema_of(cmd_of(ts[0])).len() + 1,
    ensures
        parse_model(ts) is Ok,
        parse_model(ts) == parse_model(ts.take(schema_of(cmd_of(ts[0])).len() as int + 1)),
{
    let c = cmd_of(ts[0]);
    let schema = schema_of(c);
    let pre = ts.take(schema.len() as int + 1);
    assert(pre[0] == ts[0]);
    assert forall|i: int| 0 <= i < schema.len() implies pre.skip(1)[i] == ts.skip(1)[i] by {
        assert(pre.skip(1)[i] == pre[i + 1]);
        assert(ts.skip(1)[i] == ts[i + 1]);
    }
    lemma_bind_into_agree(Map::empty(), schema, ts.skip(1), pre.skip(1), schema.len() as int);
}

/// The slot at `i` keeps its value through the later bindings, as long as no
/// later slot shares its name.
proof fn lemma_bind_into_lookup(
    m0: Map<Seq<char>, Seq<char>>,
    slots: Seq<Seq<char>>,
    vals: Seq<Seq<char>>,
    n: int,
    i: int,
)
    requires
        0 <= i < n,
        n <= slots.len(),
        n <= vals.len(),
        forall|j: int| i < j < n ==> slots[j] != slots[i],
    ensures
        bind_into(m0, slots, vals, n).contains_key(slots[i]),
        bind_into(m0, slots, vals, n)[slots[i]] == vals[i],
    decreases n,
{
    if i < n - 1 {
        lemma_bind_into_lookup(m0, slots, vals, n - 1, i);
    }
}

/// A key is bound after the first `n` slots exactly when it was bound before
/// or is one of those slots.
proof fn lemma_bind_into_dom(
    m0: Map<Seq<char>, Seq<char>>,
    slots: Seq<Seq<char>>,
    vals: Seq<Seq<char>>,
    n: int,
    k: Seq<char>,
)
    requires
        0 <= n <= slots.len(),
    ensures
        bind_into(m0, slots, vals, n).contains_key(k) <==> (m0.contains_key(k) || exists|i: int|
            0 <= i < n && slots[i] == k),
    decreases n,
{
    if n > 0 {
        lemma_bind_into_dom(m0, slots, vals, n - 1, k);
        if slots[n - 1] == k {
            assert(0 <= n - 1 < n && slots[n - 1] == k);
        }
    }
}

/// The slot names within any one command's schema are pairwise distinct.
pub proof fn lemma_schema_distinct(c: Command)
    ensures
        forall|i: int, j: int|
            0 <= i < j < schema_of(c).len() ==> schema_of(c)[i] != schema_of(c)[j],
{
    reveal_strlit("infile");
    reveal_strlit("outfile");
    reveal_strlit("blur_value");
    reveal_strlit("brighten_value");
    reveal_strlit("x");
    reveal_strlit("y");
    reveal_strlit("width");
    reveal_strlit("height");
    reveal_strlit("deg_rotation");
    reveal_strlit("R");
    reveal_strlit("G");
    reveal_strlit("B");
    assert(("x"@)[0] != ("y"@)[0]);
    assert(("infile"@)[0] != ("height"@)[0]);
    assert(("R"@)[0] != ("G"@)[0]);
    assert(("R"@)[0] != ("B"@)[0]);
    assert(("G"@)[0] != ("B"@)[0]);
    assert("infile"@.len() == 6);
    assert("outfile"@.len() == 7);
    assert("blur_value"@.len() == 10);
    assert("brighten_value"@.len() == 14);
    assert("deg_rotation"@.len() == 12);
    assert("x"@.len() == 1);
    assert("y"@.len() == 1);
    assert("width"@.len() == 5);
    assert("height"@.len() == 6);
    assert("R"@.len() == 1);
    assert("G"@.len() == 1);
    assert("B"@.len() == 1);
    assert("x"@ != "y"@);
    assert("infile"@ != "height"@);
    assert("R"@ != "G"@);
    assert("R"@ != "B"@);
    assert("G"@ != "B"@);
    match c {
        Command::Blur => {
            assert forall|i: int, j: int|
                0 <= i < j < schema_of(c).len() implies schema_of(c)[i] != schema_of(c)[j] by {}
        },
        Command::Brighten => {
            assert forall|i: int, j: int|
                0 <= i < j < schema_of(c).len() implies schema_of(c)[i] != schema_of(c)[j] by {}
        },
        Command::Crop => {
            assert forall|i: int, j: int|
                0 <= i < j < schema_of(c).len() implies schema_of(c)[i] != schema_of(c)[j] by {}
        },
        Command::Rotate => {
            assert forall|i: int, j: int|
                0 <= i < j < schema_of(c).len() implies schema_of(c)[i] != schema_of(c)[j] by {}
        },
        Command::Invert => {
            assert forall|i: int, j: int|
                0 <= i < j < schema_of(c).len() implies schema_of(c)[i] != schema_of(c)[j] by {}
        },
        Command::Grayscale => {
            assert forall|i: int, j: int|
                0 <= i < j < schema_of(c).len() implies schema_of(c)[i] != schema_of(c)[j] by {}
        },
        Command::Generate => {
            assert forall|i: int, j: int|
                0 <= i < j < schema_of(c).len() implies schema_of(c)[i] != schema_of(c)[j] by {}
        },
        Command::Fractal => {
            assert forall|i: int, j: int|
                0 <= i < j < schema_of(c).len() implies schema_of(c)[i] != schema_of(c)[j] by {}
        },
        Command::Unresolved => {
            assert(schema_of(c).len() == 0);
        },
    }
}

/// A successful parse binds every schema slot, slot `i` to token `i + 1`
/// verbatim, and binds nothing else: one entry per slot, by name.
pub proof fn lemma_bound_args_exact(ts: Seq<Seq<char>>, i: int)
    requires
        parse_model(ts) is Ok,
        0 <= i < schema_of(cmd_of(ts[0])).len(),
    ensures
        parse_model(ts)->Ok_0.1.contains_key(schema_of(cmd_of(ts[0]))[i]),
        parse_model(ts)->Ok_0.1[schema_of(cmd_of(ts[0]))[i]] == ts[i + 1],
        forall|k: Seq<char>|
            parse_model(ts)->Ok_0.1.contains_key(k) ==> exists|j: int|
                0 <= j < schema_of(cmd_of(ts[0])).len() && schema_of(cmd_of(ts[0]))[j] == k,
{
    let c = cmd_of(ts[0]);
    let schema = schema_of(c);
    lemma_schema_distinct(c);
    lemma_bind_into_lookup(Map::empty(), schema, ts.skip(1), schema.len() as int, i);
    assert(ts.skip(1)[i] == ts[i + 1]);
    assert forall|k: Seq<char>| parse_model(ts)->Ok_0.1.contains_key(k) implies exists|j: int|
        0 <= j < schema.len() && schema[j] == k by {
        lemma_bind_into_dom(Map::empty(), schema, ts.skip(1), schema.len() as int, k);
    }
}

/// An operation reads only the slots of its command's schema: two bound
/// argument maps that agree on those slots yield the same plan or failure.
/// This ties each registry entry's schema to what its operation requires.
pub proof fn lemma_plan_reads_only_schema(
    c: Command,
    m1: Map<Seq<char>, Seq<char>>,
    m2: Map<Seq<char>, Seq<char>>,
)
    requires
        c != Command::Unresolved,
        forall|i: int|
            0 <= i < schema_of(c).len() ==> m1[#[trigger] schema_of(c)[i]] == m2[schema_of(c)[i]],
    ensures
        plan_of(c, m1) == plan_of(c, m2),
{
    match c {
        Command::Blur => {
            assert(schema_of(c)[0] == "infile"@);
            assert(schema_of(c)[1] == "outfile"@);
            assert(schema_of(c)[2] == "blur_value"@);
        },
        Command::Brighten => {
            assert(schema_of(c)[0] == "infile"@);
            assert(schema_of(c)[1] == "outfile"@);
            assert(schema_of(c)[2] == "brighten_value"@);
        },
        Command::Crop => {
            assert(schema_of(c)[0] == "infile"@);
            assert(schema_of(c)[1] == "outfile"@);
            assert(schema_of(c)[2] == "x"@);
            assert(schema_of(c)[3] == "y"@);
            assert(schema_of(c)[4] == "width"@);
            assert(schema_of(c)[5] == "height"@);
        },
        Command::Rotate => {
            assert(schema_of(c)[0] == "infile"@);
            assert(schema_of(c)[1] == "outfile"@);
            assert(schema_of(c)[2] == "deg_rotation"@);
        },
        Command::Invert => {
            assert(schema_of(c)[0] == "infile"@);
            assert(schema_of(c)[1] == "outfile"@);
        },
        Command::Grayscale => {
            assert(schema_of(c)[0] == "infile"@);
            assert(schema_of(c)[1] == "outfile"@);
        },
        Command::Generate => {
            assert(schema_of(c)[0] == "outfile"@);
        },
        Command::Fractal => {
            assert(schema_of(c)[0] == "outfile"@);
        },
        Command::Unresolved => {},
    }
}

} // verus!
