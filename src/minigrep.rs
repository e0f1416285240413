//! A line search over text: the lines that hold a query, with or without
//! regard to case, and the configuration read from command-line arguments.
use vstd::prelude::*;
use vstd::string::StrSliceExecFns;
use crate::text::{chars_of, contains, contains_spec, lower_of, lowercase};

verus! {

/// The error when no query follows the program name.
pub const MISSING_QUERY: &'static str = "Didn't get a query string.";

/// The error when no file path follows the query.
pub const MISSING_FILE_PATH: &'static str = "Didn't get a file path string.";

/// What to search for, where, and whether case matters.
pub struct Config {
    pub query: String,
    pub file_path: String,
    pub ignore_case: bool,
}

/// Whether a line is kept by a search for `query`.
pub open spec fn selects(line: Seq<char>, query: Seq<char>, ignore_case: bool) -> bool {
    if ignore_case {
        contains_spec(lower_of(line), lower_of(query))
    } else {
        contains_spec(line, query)
    }
}

/// The line of `s` that runs from `start` to `end`; a carriage return before
/// the newline that ends it is not part of it.
pub open spec fn line_at(s: Seq<char>, start: int, end: int, terminated: bool) -> Seq<char> {
    if terminated && end > start && s[end - 1] == '\r' {
        s.subrange(start, end - 1)
    } else {
        s.subrange(start, end)
    }
}

/// The lines of `s` from the one that begins at `start`, scanning from
/// position `i`, that a search for `query` keeps. Lines end at a newline;
/// the last line needs none, and an empty text has no lines.
pub open spec fn matching_from(
    query: Seq<char>,
    s: Seq<char>,
    ignore_case: bool,
    start: int,
    i: int,
) -> Seq<Seq<char>>
    decreases s.len() - i,
{
    if i >= s.len() {
        if start < s.len() && selects(line_at(s, start, s.len() as int, false), query, ignore_case) {
            seq![line_at(s, start, s.len() as int, false)]
        } else {
            seq![]
        }
    } else if s[i] == '\n' {
        let line = line_at(s, start, i, true);
        let rest = matching_from(query, s, ignore_case, i + 1, i + 1);
        if selects(line, query, ignore_case) {
            seq![line] + rest
        } else {
            rest
        }
    } else {
        matching_from(query, s, ignore_case, start, i + 1)
    }
}

/// The lines of `contents` that a search for `query` keeps, in order.
pub open spec fn matching_lines(query: Seq<char>, contents: Seq<char>, ignore_case: bool) -> Seq<
    Seq<char>,
> {
    matching_from(query, contents, ignore_case, 0, 0)
}

fn selected(line: &str, query: &str, lower_query: &str, ignore_case: bool) -> (r: bool)
    requires
        lower_query@ == lower_of(query@),
    ensures
        r == selects(line@, query@, ignore_case),
{
    if ignore_case {
        let lower_line = lowercase(line);
        contains(lower_line.as_str(), lower_query)
    } else {
        contains(line, query)
    }
}

fn search_lines<'a>(query: &str, contents: &'a str, ignore_case: bool) -> (r: Vec<&'a str>)
    ensures
        r@.map_values(|l: &str| l@) == matching_lines(query@, contents@, ignore_case),
{
    let lower_query = lowercase(query);
    let s = chars_of(contents);
    let n = s.len();
    let mut out: Vec<&'a str> = Vec::new();
    let mut start: usize = 0;
    let mut i: usize = 0;
    while i < n
        invariant
            s@ == contents@,
            n == s@.len(),
            start <= i <= n,
            lower_query@ == lower_of(query@),
            out@.map_values(|l: &str| l@) + matching_from(query@, s@, ignore_case, start as int, i as int)
                == matching_lines(query@, contents@, ignore_case),
        decreases n - i,
    {
        if s[i] == '\n' {
            let end = if i > start && s[i - 1] == '\r' {
                i - 1
            } else {
                i
            };
            let line = contents.substring_char(start, end);
            assert(line@ == line_at(s@, start as int, i as int, true));
            let ghost before = out@.map_values(|l: &str| l@);
            if selected(line, query, lower_query.as_str(), ignore_case) {
                out.push(line);
                assert(out@.map_values(|l: &str| l@) =~= before + seq![line@]);
            }
            start = i + 1;
        }
        i = i + 1;
    }
    if start < n {
        let line = contents.substring_char(start, n);
        assert(line@ == line_at(s@, start as int, n as int, false));
        let ghost before = out@.map_values(|l: &str| l@);
        if selected(line, query, lower_query.as_str(), ignore_case) {
            out.push(line);
            assert(out@.map_values(|l: &str| l@) =~= before + seq![line@]);
        }
    }
    assert(out@.map_values(|l: &str| l@) =~= matching_lines(query@, contents@, ignore_case));
    out
}

/// The lines of `contents` that hold `query`, in order, each once.
pub fn search<'a>(query: &str, contents: &'a str) -> (r: Vec<&'a str>)
    ensures
        r@.map_values(|l: &str| l@) == matching_lines(query@, contents@, false),
{
    search_lines(query, contents, false)
}

/// The lines of `contents` that hold `query` when both are lowercased, in
/// order, each once.
pub fn search_case_insensitive<'a>(query: &str, contents: &'a str) -> (r: Vec<&'a str>)
    ensures
        r@.map_values(|l: &str| l@) == matching_lines(query@, contents@, true),
{
    search_lines(query, contents, true)
}

impl Config {
    /// Reads the query, the file path and an optional case flag from the
    /// arguments that follow the program name. Case is ignored when the flag
    /// is `i` in any case, or when `ignore_case_env` says the environment
    /// asks for it.
    pub fn build(args: &[String], ignore_case_env: bool) -> (r: Result<Config, &'static str>)
        ensures
            args@.len() < 2 ==> r == Err::<Config, &'static str>(MISSING_QUERY),
            args@.len() == 2 ==> r == Err::<Config, &'static str>(MISSING_FILE_PATH),
            args@.len() >= 3 ==> (r matches Ok(c) && c.query@ == args@[1]@ && c.file_path@
                == args@[2]@ && c.ignore_case == (ignore_case_env || (args@.len() >= 4
                && lower_of(args@[3]@) == seq!['i']))),
    {
        if args.len() < 2 {
            return Err(MISSING_QUERY);
        }
        let query = args[1].clone();
        if args.len() < 3 {
            return Err(MISSING_FILE_PATH);
        }
        let file_path = args[2].clone();
        let mut ignore_case = false;
        if args.len() >= 4 {
            let ignore_arg = lowercase(args[3].as_str());
            let flag = ignore_arg.as_str();
            if flag.unicode_len() == 1 && flag.get_char(0) == 'i' {
                assert(flag@ =~= seq!['i']);
                ignore_case = true;
            }
        }
        if ignore_case_env {
            ignore_case = true;
        }
        Ok(Config { query, file_path, ignore_case })
    }
}

} // verus!
