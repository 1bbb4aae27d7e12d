//! The display strings the session hands to the renderer and the invoker:
//! the command line echoed in the title, the title with the retained-line
//! count, and the message reported when the command could not be started.

use vstd::prelude::*;
use vstd::string::StringExecFns;

verus! {

/// The decimal digit for a value below ten.
pub open spec fn digit_char(d: nat) -> char {
    if d == 0 {
        '0'
    } else if d == 1 {
        '1'
    } else if d == 2 {
        '2'
    } else if d == 3 {
        '3'
    } else if d == 4 {
        '4'
    } else if d == 5 {
        '5'
    } else if d == 6 {
        '6'
    } else if d == 7 {
        '7'
    } else if d == 8 {
        '8'
    } else {
        '9'
    }
}

/// The decimal representation of `n`, most significant digit first, with no
/// leading zeros (a single `'0'` for zero).
pub open spec fn decimal_digits(n: nat) -> Seq<char>
    decreases n,
{
    if n < 10 {
        seq![digit_char(n)]
    } else {
        decimal_digits(n / 10).push(digit_char(n % 10))
    }
}

/// The arguments joined with single spaces: empty for no arguments.
pub open spec fn joined_args(args: Seq<Seq<char>>) -> Seq<char>
    decreases args.len(),
{
    if args.len() == 0 {
        Seq::empty()
    } else if args.len() == 1 {
        args[0]
    } else {
        joined_args(args.drop_last()) + seq![' '] + args.last()
    }
}

fn digit_str(d: usize) -> (s: &'static str)
    requires
        d < 10,
    ensures
        s@ == seq![digit_char(d as nat)],
{
    if d == 0 {
        proof {
            reveal_strlit("0");
        }
        let s = "0";
        proof {
            assert(s@ =~= seq![digit_char(0)]);
        }
        s
    } else if d == 1 {
        proof {
            reveal_strlit("1");
        }
        let s = "1";
        proof {
            assert(s@ =~= seq![digit_char(1)]);
        }
        s
    } else if d == 2 {
        proof {
            reveal_strlit("2");
        }
        let s = "2";
        proof {
            assert(s@ =~= seq![digit_char(2)]);
        }
        s
    } else if d == 3 {
        proof {
            reveal_strlit("3");
        }
        let s = "3";
        proof {
            assert(s@ =~= seq![digit_char(3)]);
        }
        s
    } else if d == 4 {
        proof {
            reveal_strlit("4");
        }
        let s = "4";
        proof {
            assert(s@ =~= seq![digit_char(4)]);
        }
        s
    } else if d == 5 {
        proof {
            reveal_strlit("5");
        }
        let s = "5";
        proof {
            assert(s@ =~= seq![digit_char(5)]);
        }
        s
    } else if d == 6 {
        proof {
            reveal_strlit("6");
        }
        let s = "6";
        proof {
            assert(s@ =~= seq![digit_char(6)]);
        }
        s
    } else if d == 7 {
        proof {
            reveal_strlit("7");
        }
        let s = "7";
        proof {
            assert(s@ =~= seq![digit_char(7)]);
        }
        s
    } else if d == 8 {
        proof {
            reveal_strlit("8");
        }
        let s = "8";
        proof {
            assert(s@ =~= seq![digit_char(8)]);
        }
        s
    } else {
        proof {
            reveal_strlit("9");
        }
        let s = "9";
        proof {
            assert(s@ =~= seq![digit_char(9)]);
        }
        s
    }
}

/// Format a count in decimal.
pub fn format_count(n: usize) -> (s: String)
    ensures
        s@ == decimal_digits(n as nat),
    decreases n,
{
    if n < 10 {
        String::from_str(digit_str(n))
    } else {
        let mut s = format_count(n / 10);
        s.append(digit_str(n % 10));
        proof {
            assert(s@ =~= decimal_digits(n as nat));
        }
        s
    }
}

/// The command line as the session echoes it: the command, a space, and the
/// arguments joined with spaces (the trailing space stays when there are no
/// arguments).
pub fn command_line_string(command: &str, args: &Vec<String>) -> (s: String)
    ensures
        s@ == command@ + seq![' '] + joined_args(args.deep_view()),
{
    let ghost av = args.deep_view();
    let mut s = command.to_owned();
    s.append(" ");
    proof {
        reveal_strlit(" ");
        assert(" "@ =~= seq![' ']);
    }
    let mut i: usize = 0;
    while i < args.len()
        invariant
            i <= args.len(),
            av == args.deep_view(),
            s@ == command@ + seq![' '] + joined_args(av.take(i as int)),
        decreases args.len() - i,
    {
        proof {
            reveal_strlit(" ");
            assert(" "@ =~= seq![' ']);
        }
        if i > 0 {
            s.append(" ");
        }
        s.append(args[i].as_str());
        proof {
            assert(av.take(i as int + 1).drop_last() =~= av.take(i as int));
            assert(av.take(i as int + 1).last() == av[i as int]);
            if i == 0 {
                assert(joined_args(av.take(1)) == av[0]);
            }
            assert(s@ =~= command@ + seq![' '] + joined_args(av.take(i as int + 1)));
        }
        i += 1;
    }
    proof {
        assert(av.take(av.len() as int) =~= av);
    }
    s
}

/// The title the renderer shows: the echoed command line and the number of
/// retained lines.
pub fn title_string(command_string: &str, count: usize) -> (s: String)
    ensures
        s@ == command_string@ + " - "@ + decimal_digits(count as nat),
{
    let mut s = command_string.to_owned();
    s.append(" - ");
    let num = format_count(count);
    s.append(num.as_str());
    s
}

/// The message reported when the command cannot be started: it names the
/// command line and carries the underlying error's description.
pub fn spawn_failure_message(command: &str, args: &Vec<String>, error: &str) -> (s: String)
    ensures
        s@ == "Failed to start command \""@ + command@ + seq![' '] + joined_args(args.deep_view())
            + "\": "@ + error@,
{
    let mut s = String::from_str("Failed to start command \"");
    let cmdline = command_line_string(command, args);
    s.append(cmdline.as_str());
    s.append("\": ");
    s.append(error);
    s
}

} // verus!
