//! Formatting an external command and its arguments as one string.

use vstd::prelude::*;

verus! {

/// The views of a sequence of strings.
pub open spec fn views_of(v: Seq<String>) -> Seq<Seq<char>> {
    v.map_values(|s: String| s@)
}

/// The single string that a command and its arguments form: the command
/// followed by each argument, separated by single spaces.
pub open spec fn concat_spec(command: Seq<char>, args: Seq<Seq<char>>) -> Seq<char>
    decreases args.len(),
{
    if args.len() == 0 {
        command
    } else {
        concat_spec(command, args.drop_last()) + seq![' '] + args.last()
    }
}

/// Format a command with the given list of arguments as a string.
pub fn format_command(command: &str, args: &Vec<String>) -> (r: String)
    ensures
        r@ == concat_spec(command@, views_of(args@)),
{
    let mut r = command.to_owned();
    let mut i: usize = 0;
    while i < args.len()
        invariant
            i <= args@.len(),
            r@ == concat_spec(command@, views_of(args@).subrange(0, i as int)),
        decreases args@.len() - i,
    {
        r.append(" ");
        r.append(args[i].as_str());
        proof {
            let vs = views_of(args@);
            assert(vs.subrange(0, i + 1).drop_last() =~= vs.subrange(0, i as int));
            assert(vs.subrange(0, i + 1).last() == vs[i as int]);
            reveal_strlit(" ");
            assert(" "@ =~= seq![' ']);
        }
        i += 1;
    }
    proof {
        assert(views_of(args@).subrange(0, args@.len() as int) =~= views_of(args@));
    }
    r
}

} // verus!
