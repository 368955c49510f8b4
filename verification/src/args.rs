//! Classification of command-line tokens into options and file paths, and
//! the fixed help text.

use vstd::prelude::*;
use crate::views_of;

verus! {

/// The options parsed from the command line. Built once, then only read.
pub struct CatArgs {
    /// Prefix every output line with its 1-based per-source number.
    pub show_lines: bool,
    /// Print the usage message and do nothing else.
    pub show_help: bool,
    /// The remaining tokens, kept verbatim and in order.
    pub file_paths: Vec<String>,
}

/// A token that switches line numbering on.
pub open spec fn is_lines_flag(s: Seq<char>) -> bool {
    s == "-n"@ || s == "--line_numbers"@
}

/// A token that asks for the help text.
pub open spec fn is_help_flag(s: Seq<char>) -> bool {
    s == "-h"@ || s == "--help"@
}

/// A token recognized as a flag. Every other token is a file path, even one
/// that merely looks like a flag.
pub open spec fn is_flag(s: Seq<char>) -> bool {
    is_lines_flag(s) || is_help_flag(s)
}

/// The tokens that are not flags, kept verbatim and in their given order.
pub open spec fn kept_paths(argv: Seq<Seq<char>>) -> Seq<Seq<char>>
    decreases argv.len(),
{
    if argv.len() == 0 {
        Seq::empty()
    } else if is_flag(argv.last()) {
        kept_paths(argv.drop_last())
    } else {
        kept_paths(argv.drop_last()).push(argv.last())
    }
}

/// Decides where the input comes from: standard input exactly when no file
/// path was given; otherwise the listed files, in order.
pub fn use_stdin(args: &CatArgs) -> (r: bool)
    ensures
        r == (args.file_paths@.len() == 0),
{
    args.file_paths.len() == 0
}

/// The fixed usage message, shown when the help flag is given.
pub open spec fn help_text_view() -> Seq<char> {
    "cat-rs - A minimal clone of the Unix `cat` command\n\nUSAGE:\n    cat-rs [OPTIONS] [FILES]...\n\nOPTIONS:\n    -n, --line_numbers     Show line numbers in the output\n    -h, --help             Show this help message and exit\n\nDESCRIPTION:\n    Reads files sequentially, writing them to standard output.\n    If no files are specified, reads from standard input.\n\nEXAMPLES:\n    cat-rs file.txt\n    cat-rs -n file1.txt file2.txt\n    echo \"hello\" | cat-rs -n\n"@
}

/// The usage message as a string, exactly `help_text_view`.
pub fn help_text() -> (r: String)
    ensures
        r@ == help_text_view(),
{
    String::from_str(
        "cat-rs - A minimal clone of the Unix `cat` command\n\nUSAGE:\n    cat-rs [OPTIONS] [FILES]...\n\nOPTIONS:\n    -n, --line_numbers     Show line numbers in the output\n    -h, --help             Show this help message and exit\n\nDESCRIPTION:\n    Reads files sequentially, writing them to standard output.\n    If no files are specified, reads from standard input.\n\nEXAMPLES:\n    cat-rs file.txt\n    cat-rs -n file1.txt file2.txt\n    echo \"hello\" | cat-rs -n\n",
    )
}

/// Classifies the argument tokens (the program name already removed):
/// each recognized flag sets its option, every other token is a file path.
/// Classification cannot fail; unrecognized flag-like tokens are paths.
pub fn parse_args(argv: &Vec<String>) -> (r: CatArgs)
    ensures
        r.show_lines == exists|i: int|
            0 <= i < argv@.len() && is_lines_flag(#[trigger] argv@[i]@),
        r.show_help == exists|i: int|
            0 <= i < argv@.len() && is_help_flag(#[trigger] argv@[i]@),
        views_of(r.file_paths@) == kept_paths(views_of(argv@)),
{
    let flag_n = String::from_str("-n");
    let flag_lines = String::from_str("--line_numbers");
    let flag_h = String::from_str("-h");
    let flag_help = String::from_str("--help");
    let mut show_lines = false;
    let mut show_help = false;
    let mut file_paths: Vec<String> = Vec::new();
    let n = argv.len();
    for idx in 0..n
        invariant
            n == argv@.len(),
            flag_n@ == "-n"@,
            flag_lines@ == "--line_numbers"@,
            flag_h@ == "-h"@,
            flag_help@ == "--help"@,
            show_lines == exists|i: int|
                0 <= i < idx && is_lines_flag(#[trigger] argv@[i]@),
            show_help == exists|i: int|
                0 <= i < idx && is_help_flag(#[trigger] argv@[i]@),
            views_of(file_paths@) == kept_paths(views_of(argv@).take(idx as int)),
    {
        let arg = &argv[idx];
        proof {
            reveal_strlit("-n");
            reveal_strlit("--line_numbers");
            reveal_strlit("-h");
            reveal_strlit("--help");
            assert("-n"@.len() == 2);
            assert("--line_numbers"@.len() == 14);
            assert("-h"@.len() == 2);
            assert("--help"@.len() == 6);
            assert("-n"@[1] == 'n');
            assert("-h"@[1] == 'h');
            assert(views_of(argv@).take(idx + 1).drop_last() =~= views_of(argv@).take(idx as int));
            assert(views_of(argv@).take(idx + 1).last() == arg@);
        }
        if *arg == flag_n || *arg == flag_lines {
            show_lines = true;
            assert(is_lines_flag(argv@[idx as int]@));
        } else if *arg == flag_h || *arg == flag_help {
            show_help = true;
            assert(is_help_flag(argv@[idx as int]@));
        } else {
            assert(!is_flag(arg@));
            let ghost prev = file_paths@;
            file_paths.push(arg.clone());
            proof {
                assert(views_of(file_paths@) =~= views_of(prev).push(arg@));
            }
        }
    }
    proof {
        assert(views_of(argv@).take(n as int) =~= views_of(argv@));
    }
    CatArgs { show_lines, show_help, file_paths }
}

} // verus!
