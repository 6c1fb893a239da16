//! Command-line handling: option parsing and whitespace splitting of the
//! compiler-flag string. The surrounding application collects the raw
//! argument strings and prints the results; the decisions live here.

use vstd::prelude::*;
use vstd::string::{StrSliceExecFns, StringExecFns};

use crate::util::str_eq;

verus! {

/// The three settings the command line provides: where to look, which file
/// to parse, and the compiler flags to parse it with.
#[derive(Debug, Default)]
pub struct Options {
    /// The search path argument.
    pub path: String,
    /// The source file to parse.
    pub file: String,
    /// The compiler flags, as one space-separated string.
    pub cflags: String,
}

/// What option parsing makes of the arguments from position `i` on, given
/// the values collected so far: options come in flag–value pairs, an unknown
/// flag is an error at once, a flag at the very end clears its setting, a
/// repeated flag overwrites, and a setting still missing at the end is an
/// error in the fixed order path, file, cflags.
pub open spec fn spec_parse(
    args: Seq<Seq<char>>,
    i: int,
    path: Option<Seq<char>>,
    file: Option<Seq<char>>,
    cflags: Option<Seq<char>>,
) -> Result<(Seq<char>, Seq<char>, Seq<char>), Seq<char>>
    decreases args.len() - i,
    when 0 <= i
{
    if i >= args.len() {
        match path {
            None => Err("No path specified (`--path')."@),
            Some(p) => match file {
                None => Err("No file specified (`--file')."@),
                Some(f) => match cflags {
                    None => Err("No compiler flags specified (`--cflags')."@),
                    Some(c) => Ok((p, f, c)),
                },
            },
        }
    } else {
        let a = args[i];
        if a == "-p"@ || a == "--path"@ {
            if i + 1 < args.len() {
                spec_parse(args, i + 2, Some(args[i + 1]), file, cflags)
            } else {
                spec_parse(args, i + 1, None, file, cflags)
            }
        } else if a == "-f"@ || a == "--file"@ {
            if i + 1 < args.len() {
                spec_parse(args, i + 2, path, Some(args[i + 1]), cflags)
            } else {
                spec_parse(args, i + 1, path, None, cflags)
            }
        } else if a == "-c"@ || a == "--cflags"@ {
            if i + 1 < args.len() {
                spec_parse(args, i + 2, path, file, Some(args[i + 1]))
            } else {
                spec_parse(args, i + 1, path, file, None)
            }
        } else {
            Err("Unknown option: "@ + a)
        }
    }
}

/// The character view of an optional collected value.
pub open spec fn spec_opt_view(o: Option<String>) -> Option<Seq<char>> {
    match o {
        None => None,
        Some(s) => Some(s@),
    }
}

/// Parses the arguments from position `i` on, with the values collected so
/// far, exactly as [`spec_parse`] describes.
fn parse_from(
    args: &Vec<String>,
    i: usize,
    path: Option<String>,
    file: Option<String>,
    cflags: Option<String>,
) -> (r: Result<Options, String>)
    requires
        i <= args@.len(),
    ensures
        ({
            let sr = spec_parse(
                args.deep_view(),
                i as int,
                spec_opt_view(path),
                spec_opt_view(file),
                spec_opt_view(cflags),
            );
            match r {
                Ok(o) => sr == Ok::<_, Seq<char>>((o.path@, o.file@, o.cflags@)),
                Err(m) => sr == Err::<(Seq<char>, Seq<char>, Seq<char>), _>(m@),
            }
        }),
    decreases args@.len() - i,
{
    proof {
        assert(args.deep_view().len() == args@.len());
    }
    if i >= args.len() {
        match path {
            None => Err(String::from_str("No path specified (`--path').")),
            Some(p) => match file {
                None => Err(String::from_str("No file specified (`--file').")),
                Some(f) => match cflags {
                    None => Err(String::from_str("No compiler flags specified (`--cflags').")),
                    Some(c) => Ok(Options { path: p, file: f, cflags: c }),
                },
            },
        }
    } else {
        let a = &args[i];
        proof {
            assert(args.deep_view()[i as int] == args@[i as int]@);
        }
        if str_eq(a.as_str(), "-p") || str_eq(a.as_str(), "--path") {
            if i + 1 < args.len() {
                proof {
                    assert(args.deep_view()[i + 1] == args@[i + 1]@);
                }
                let v = String::from_str(args[i + 1].as_str());
                parse_from(args, i + 2, Some(v), file, cflags)
            } else {
                parse_from(args, i + 1, None, file, cflags)
            }
        } else if str_eq(a.as_str(), "-f") || str_eq(a.as_str(), "--file") {
            if i + 1 < args.len() {
                proof {
                    assert(args.deep_view()[i + 1] == args@[i + 1]@);
                }
                let v = String::from_str(args[i + 1].as_str());
                parse_from(args, i + 2, path, Some(v), cflags)
            } else {
                parse_from(args, i + 1, path, None, cflags)
            }
        } else if str_eq(a.as_str(), "-c") || str_eq(a.as_str(), "--cflags") {
            if i + 1 < args.len() {
                proof {
                    assert(args.deep_view()[i + 1] == args@[i + 1]@);
                }
                let v = String::from_str(args[i + 1].as_str());
                parse_from(args, i + 2, path, file, Some(v))
            } else {
                parse_from(args, i + 1, path, file, None)
            }
        } else {
            Err(String::from_str("Unknown option: ").concat(a.as_str()))
        }
    }
}

/// A whitespace character for flag splitting: space, tab, newline, or
/// carriage return.
pub open spec fn is_space(c: char) -> bool {
    c == ' ' || c == '\t' || c == '\n' || c == '\r'
}

/// The position that ends the word at `i`: the first position at or after
/// `i` that holds whitespace, or the end of the text.
pub open spec fn word_end(s: Seq<char>, i: int) -> int
    decreases s.len() - i,
    when 0 <= i
{
    if i >= s.len() || is_space(s[i]) {
        i
    } else {
        word_end(s, i + 1)
    }
}

/// The end of a word lies between its start and the end of the text.
proof fn lemma_word_end_bounds(s: Seq<char>, i: int)
    requires
        0 <= i <= s.len(),
    ensures
        i <= word_end(s, i) <= s.len(),
    decreases s.len() - i,
{
    if i < s.len() && !is_space(s[i]) {
        lemma_word_end_bounds(s, i + 1);
    }
}

/// The whitespace-separated words of `s` from position `i` on: the maximal
/// runs of non-whitespace characters, in order.
pub open spec fn spec_tokens_from(s: Seq<char>, i: int) -> Seq<Seq<char>>
    decreases s.len() - i,
    when 0 <= i
    via spec_tokens_from_decreases
{
    if i >= s.len() {
        Seq::<Seq<char>>::empty()
    } else if is_space(s[i]) {
        spec_tokens_from(s, i + 1)
    } else {
        seq![s.subrange(i, word_end(s, i))] + spec_tokens_from(s, word_end(s, i))
    }
}

#[via_fn]
proof fn spec_tokens_from_decreases(s: Seq<char>, i: int) {
    if 0 <= i < s.len() && !is_space(s[i]) {
        lemma_word_end_bounds(s, i + 1);
    }
}

/// The whitespace-separated words of a flag string, in order.
pub open spec fn spec_tokens(s: Seq<char>) -> Seq<Seq<char>> {
    spec_tokens_from(s, 0)
}

/// True when the character separates words.
fn is_space_char(c: char) -> (r: bool)
    ensures
        r == is_space(c),
{
    c == ' ' || c == '\t' || c == '\n' || c == '\r'
}

/// Splits a flag string into its whitespace-separated words: exactly the
/// words of [`spec_tokens`], each one a maximal non-whitespace run.
pub fn split_whitespace_args(s: &str) -> (tokens: Vec<String>)
    ensures
        tokens.deep_view() == spec_tokens(s@),
{
    let n = s.unicode_len();
    let mut tokens: Vec<String> = Vec::new();
    let mut i: usize = 0;
    while i < n
        invariant
            i <= n,
            n == s@.len(),
            tokens.deep_view() + spec_tokens_from(s@, i as int) == spec_tokens(s@),
        decreases n - i,
    {
        let c = s.get_char(i);
        if is_space_char(c) {
            proof {
                assert(spec_tokens_from(s@, i as int) == spec_tokens_from(s@, i + 1));
            }
            i += 1;
        } else {
            let ghost start = i as int;
            let mut j = i + 1;
            proof {
                lemma_word_end_bounds(s@, start);
                assert(word_end(s@, start) == word_end(s@, start + 1));
            }
            while j < n && !is_space_char(s.get_char(j))
                invariant
                    0 <= start < j <= n,
                    n == s@.len(),
                    word_end(s@, start) == word_end(s@, j as int),
                decreases n - j,
            {
                proof {
                    assert(word_end(s@, j as int) == word_end(s@, j + 1));
                }
                j += 1;
            }
            proof {
                assert(word_end(s@, j as int) == j as int);
            }
            let word = s.substring_char(i, j);
            let ghost before = tokens.deep_view();
            tokens.push(String::from_str(word));
            proof {
                assert(tokens.deep_view() =~= before + seq![s@.subrange(start, j as int)]);
                assert(spec_tokens_from(s@, start) == seq![s@.subrange(start, j as int)]
                    + spec_tokens_from(s@, j as int));
                assert(tokens.deep_view() + spec_tokens_from(s@, j as int) =~= before + (seq![
                    s@.subrange(start, j as int),
                ] + spec_tokens_from(s@, j as int)));
            }
            i = j;
        }
    }
    proof {
        assert(tokens.deep_view() =~= spec_tokens(s@));
    }
    tokens
}

/// Parses the command-line arguments, program name excluded, into the three
/// settings, exactly as [`spec_parse`] describes from an empty state: every
/// setting present yields `Ok` with the last value given for each; an
/// unknown flag, or a missing setting, yields `Err` with its message.
pub fn parse_command_line(args: &Vec<String>) -> (r: Result<Options, String>)
    ensures
        ({
            let sr = spec_parse(args.deep_view(), 0, None, None, None);
            match r {
                Ok(o) => sr == Ok::<_, Seq<char>>((o.path@, o.file@, o.cflags@)),
                Err(m) => sr == Err::<(Seq<char>, Seq<char>, Seq<char>), _>(m@),
            }
        }),
{
    parse_from(args, 0, None, None, None)
}

} // verus!
