//! The logging bridge: one write per invocation.
//!
//! A logging capability is bound to one output stream (standard output or
//! standard error). Each invocation takes the arguments' texts, joins them
//! with single spaces, and yields one complete line ending in a newline.
//! The full line is built in memory first so that the caller performs
//! exactly one write to the bound stream per invocation — each write is
//! assumed to cross a boundary with non-trivial per-call overhead. The
//! write itself is the caller's single step; this module fixes the line's
//! content.

use vstd::prelude::*;

verus! {

/// The arguments' texts joined by a single space.
pub open spec fn joined_with_spaces(args: Seq<Seq<char>>) -> Seq<char>
    decreases args.len(),
{
    if args.len() == 0 {
        Seq::empty()
    } else if args.len() == 1 {
        args[0]
    } else {
        joined_with_spaces(args.drop_last()) + seq![' '] + args.last()
    }
}

/// The complete line that one logging invocation writes: the arguments'
/// texts joined by single spaces, then one newline.
pub open spec fn log_line(args: Seq<Seq<char>>) -> Seq<char> {
    joined_with_spaces(args) + seq!['\n']
}

/// Builds the one line that an invocation of the logging bridge writes to
/// its bound stream. Accepts any number of arguments, zero included.
pub fn build_log_line(args: &Vec<String>) -> (line: String)
    ensures
        line@ == log_line(args.deep_view()),
{
    let ghost views: Seq<Seq<char>> = args.deep_view();
    let mut line = String::new();
    let mut i: usize = 0;
    assert(line@ =~= joined_with_spaces(views.take(0)));
    while i < args.len()
        invariant
            i <= args.len(),
            views == args.deep_view(),
            line@ == joined_with_spaces(views.take(i as int)),
        decreases args.len() - i,
    {
        if i != 0 {
            proof {
                reveal_strlit(" ");
            }
            line.append(" ");
        }
        line.append(args[i].as_str());
        proof {
            let next = views.take(i + 1 as int);
            assert(next.drop_last() =~= views.take(i as int));
            assert(next.last() == views[i as int]);
            assert(line@ =~= joined_with_spaces(next));
        }
        i = i + 1;
    }
    proof {
        assert(views.take(args@.len() as int) =~= views);
        reveal_strlit("\n");
    }
    line.append("\n");
    assert(line@ =~= log_line(views));
    line
}

} // verus!
