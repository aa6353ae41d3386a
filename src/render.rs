//! The template renderer: a script template and its argument literals become
//! one self-invoking script body.

use vstd::prelude::*;
use crate::text::{comma_joined, join_with_commas, views};

verus! {

/// The JSON string literal that `serde_json` writes for a text: quoted, with
/// the characters that JSON requires escaped.
pub uninterp spec fn json_quoted(s: Seq<char>) -> Seq<char>;

/// Relies on the `Display` of `serde_json::Value::String`: the compact JSON
/// literal of the text, a function of the characters alone.
#[verifier::external_body]
pub(crate) fn json_string(s: &str) -> (r: String)
    ensures
        r@ == json_quoted(s@),
{
    serde_json::Value::String(s.to_string()).to_string()
}

/// The JSON literal of a boolean.
pub open spec fn bool_literal(b: bool) -> Seq<char> {
    if b {
        seq!['t', 'r', 'u', 'e']
    } else {
        seq!['f', 'a', 'l', 's', 'e']
    }
}

/// Writes the JSON literal of a boolean.
pub fn json_bool(b: bool) -> (r: String)
    ensures
        r@ == bool_literal(b),
{
    if b {
        proof { reveal_strlit("true"); }
        String::from_str("true")
    } else {
        proof { reveal_strlit("false"); }
        String::from_str("false")
    }
}

/// `(<template>)(<arg1>,<arg2>,...)`: the template, called at once with the
/// argument literals in order.
pub open spec fn rendered(template: Seq<char>, args: Seq<Seq<char>>) -> Seq<char> {
    seq!['('] + template + seq![')', '('] + comma_joined(args) + seq![')']
}

/// Renders a template with the given argument literals, which stand in the
/// call in the order given.
pub fn render_script(template: &str, args: &Vec<String>) -> (r: String)
    ensures
        r@ == rendered(template@, views(args@)),
{
    let joined = join_with_commas(args);
    proof {
        reveal_strlit("(");
        reveal_strlit(")(");
        reveal_strlit(")");
    }
    let mut r = String::from_str("(");
    r.append(template);
    r.append(")(");
    r.append(joined.as_str());
    r.append(")");
    assert(r@ =~= rendered(template@, views(args@)));
    r
}

/// Where the `i`-th argument begins in the comma-joined arguments: after
/// each earlier argument and its comma.
pub open spec fn arg_offset(args: Seq<Seq<char>>, i: int) -> int
    decreases i,
{
    if i <= 0 {
        0
    } else {
        arg_offset(args, i - 1) + args[i - 1].len() + 1
    }
}

proof fn lemma_offset_prefix(args: Seq<Seq<char>>, n: int, i: int)
    requires
        0 <= i <= n <= args.len(),
    ensures
        arg_offset(args.take(n), i) == arg_offset(args, i),
    decreases i,
{
    if i > 0 {
        lemma_offset_prefix(args, n, i - 1);
    }
}

proof fn lemma_offset_nonnegative(args: Seq<Seq<char>>, i: int)
    ensures
        arg_offset(args, i) >= 0,
    decreases i,
{
    if i > 0 {
        lemma_offset_nonnegative(args, i - 1);
    }
}

proof fn lemma_joined_layout(args: Seq<Seq<char>>)
    ensures
        forall|i: int|
            0 <= i < args.len() ==> 0 <= #[trigger] arg_offset(args, i) && arg_offset(args, i)
                + args[i].len() <= comma_joined(args).len(),
        args.len() > 0 ==> comma_joined(args).len() == arg_offset(args, args.len() as int) - 1,
        forall|i: int|
            0 <= i < args.len() ==> #[trigger] comma_joined(args).subrange(
                arg_offset(args, i),
                arg_offset(args, i) + args[i].len(),
            ) == args[i],
        forall|i: int|
            0 < i < args.len() ==> #[trigger] comma_joined(args)[arg_offset(args, i) - 1] == ',',
    decreases args.len(),
{
    if args.len() == 1 {
        assert(arg_offset(args, 0) == 0);
        assert(comma_joined(args).subrange(0, args[0].len() as int) =~= args[0]);
    } else if args.len() > 1 {
        let p = args.drop_last();
        let n = args.len() - 1;
        lemma_joined_layout(p);
        assert(p =~= args.take(n));
        assert forall|i: int| 0 <= i <= n implies arg_offset(p, i) == arg_offset(args, i) by {
            lemma_offset_prefix(args, n, i);
        }
        let j = comma_joined(args);
        assert(j == comma_joined(p) + seq![','] + args.last());
        assert(arg_offset(args, n as int) == arg_offset(args, n - 1) + p[n - 1].len() + 1);
        assert forall|i: int| 0 <= i < args.len() implies 0 <= #[trigger] arg_offset(args, i)
            && arg_offset(args, i) + args[i].len() <= j.len() by {
            lemma_offset_nonnegative(args, i);
            if i < n {
                assert(p[i] == args[i]);
            }
        }
        assert forall|i: int| 0 <= i < args.len() implies #[trigger] j.subrange(
            arg_offset(args, i),
            arg_offset(args, i) + args[i].len(),
        ) == args[i] by {
            if i < n {
                assert(p[i] == args[i]);
                assert(j.subrange(arg_offset(args, i), arg_offset(args, i) + args[i].len())
                    =~= comma_joined(p).subrange(arg_offset(p, i), arg_offset(p, i) + p[i].len()));
            } else {
                assert(j.subrange(arg_offset(args, i), arg_offset(args, i) + args[i].len())
                    =~= args.last());
            }
        }
        assert forall|i: int| 0 < i < args.len() implies #[trigger] j[arg_offset(args, i) - 1]
            == ',' by {
            lemma_offset_nonnegative(args, i - 1);
            assert(0 <= arg_offset(args, i) && arg_offset(args, i) + args[i].len() <= j.len());
            if i < n {
                assert(arg_offset(p, i) == arg_offset(args, i));
                assert(0 <= arg_offset(p, i) && arg_offset(p, i) + p[i].len() <= comma_joined(p).len());
                assert(comma_joined(p)[arg_offset(p, i) - 1] == ',');
            }
        }
    }
}

/// A rendered script is `(`, the template, `)(`, the arguments and `)`;
/// each argument stands whole at its own offset, in the order given, and
/// neighbouring arguments are parted by one comma.
pub proof fn lemma_rendered_arguments(template: Seq<char>, args: Seq<Seq<char>>)
    ensures
        rendered(template, args).take(template.len() + 3int) == seq!['('] + template + seq![')', '('],
        rendered(template, args).last() == ')',
        rendered(template, args).len() == template.len() + 4 + if args.len() == 0 {
            0
        } else {
            arg_offset(args, args.len() as int) - 1
        },
        forall|i: int|
            0 <= i < args.len() ==> #[trigger] rendered(template, args).subrange(
                template.len() + 3 + arg_offset(args, i),
                template.len() + 3 + arg_offset(args, i) + args[i].len(),
            ) == args[i],
        forall|i: int|
            0 < i < args.len() ==> #[trigger] rendered(template, args)[template.len() + 2
                + arg_offset(args, i)] == ',',
{
    lemma_joined_layout(args);
    let r = rendered(template, args);
    let j = comma_joined(args);
    let base = template.len() + 3int;
    assert(r =~= (seq!['('] + template + seq![')', '(']) + j + seq![')']);
    assert(r.take(base) =~= seq!['('] + template + seq![')', '(']);
    assert forall|i: int| 0 <= i < args.len() implies #[trigger] r.subrange(
        base + arg_offset(args, i),
        base + arg_offset(args, i) + args[i].len(),
    ) == args[i] by {
        assert(r.subrange(base + arg_offset(args, i), base + arg_offset(args, i) + args[i].len())
            =~= j.subrange(arg_offset(args, i), arg_offset(args, i) + args[i].len()));
    }
    assert forall|i: int| 0 < i < args.len() implies #[trigger] r[template.len() + 2
        + arg_offset(args, i)] == ',' by {
        lemma_offset_nonnegative(args, i - 1);
        assert(0 <= arg_offset(args, i) && arg_offset(args, i) + args[i].len() <= j.len());
        assert(r[base + (arg_offset(args, i) - 1)] == j[arg_offset(args, i) - 1]);
    }
}

/// With no arguments the call has an empty argument list: `(<template>)()`.
pub proof fn lemma_rendered_without_arguments(template: Seq<char>)
    ensures
        rendered(template, Seq::empty()) == seq!['('] + template + seq![')', '(', ')'],
{
    assert(rendered(template, Seq::empty()) =~= seq!['('] + template + seq![')', '(', ')']);
}

} // verus!
