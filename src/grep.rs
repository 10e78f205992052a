//! A small grep: the lines of a text that contain a query, matched exactly or
//! ignoring case. Reading the file and printing the lines are the caller's.

use vstd::prelude::*;

verus! {

/// The length of the first line of `s`: the characters before the first `'\n'`.
pub open spec fn first_line_len(s: Seq<char>) -> nat
    decreases s.len(),
{
    if s.len() == 0 || s[0] == '\n' {
        0
    } else {
        1 + first_line_len(s.drop_first())
    }
}

/// A line without the `'\r'` of a `"\r\n"` ending.
pub open spec fn strip_cr(line: Seq<char>) -> Seq<char> {
    if line.len() > 0 && line.last() == '\r' {
        line.drop_last()
    } else {
        line
    }
}

/// The lines of `s`: split at `"\n"` or `"\r\n"`, without the line endings; a
/// final line ending adds no empty line, and an empty text has no line.
pub open spec fn lines_spec(s: Seq<char>) -> Seq<Seq<char>>
    decreases s.len(),
{
    if s.len() == 0 {
        Seq::empty()
    } else if first_line_len(s) < s.len() {
        seq![strip_cr(s.take(first_line_len(s) as int))] + lines_spec(s.skip(first_line_len(s) + 1 as int))
    } else {
        seq![s]
    }
}

/// Whether `needle` occurs in `hay` as a run of consecutive characters.
pub open spec fn has_substring(hay: Seq<char>, needle: Seq<char>) -> bool {
    exists|i: int| 0 <= i <= hay.len() - needle.len() && #[trigger] hay.subrange(i, i + needle.len()) == needle
}

/// Whether `line` matches `query`: it contains it, or, when `fold` is set, it
/// contains it once both are lower-cased.
pub open spec fn line_matches(line: Seq<char>, query: Seq<char>, fold: bool) -> bool {
    if fold {
        has_substring(lower_of(line), lower_of(query))
    } else {
        has_substring(line, query)
    }
}

/// The lines of `lines` that match `query`, in their order.
pub open spec fn matching(lines: Seq<Seq<char>>, query: Seq<char>, fold: bool) -> Seq<Seq<char>>
    decreases lines.len(),
{
    if lines.len() == 0 {
        Seq::empty()
    } else if line_matches(lines.last(), query, fold) {
        matching(lines.drop_last(), query, fold).push(lines.last())
    } else {
        matching(lines.drop_last(), query, fold)
    }
}

/// What `str::to_lowercase` makes of a text.
pub uninterp spec fn lower_of(s: Seq<char>) -> Seq<char>;

/// The characters of each string in `v`.
pub open spec fn texts(v: Seq<&str>) -> Seq<Seq<char>> {
    v.map_values(|l: &str| l@)
}

/// Relies on `str::lines`: the lines of `s`, split as its documentation says,
/// each a slice of `s`.
#[verifier::external_body]
fn split_lines<'a>(s: &'a str) -> (r: Vec<&'a str>)
    ensures
        texts(r@) == lines_spec(s@),
{
    s.lines().collect()
}

/// Relies on `str::contains` with a `&str` pattern: whether `needle` occurs in `hay`.
#[verifier::external_body]
fn contains_text(hay: &str, needle: &str) -> (r: bool)
    ensures
        r == has_substring(hay@, needle@),
{
    hay.contains(needle)
}

/// Relies on `str::to_lowercase`: its result depends on the characters alone.
#[verifier::external_body]
fn lowercase(s: &str) -> (r: String)
    ensures
        r@ == lower_of(s@),
{
    s.to_lowercase()
}

/// The lines of `contents` that contain `query`.
pub fn search_case_sensitive<'a>(query: &str, contents: &'a str) -> (r: Vec<&'a str>)
    ensures
        texts(r@) == matching(lines_spec(contents@), query@, false),
{
    let lines = split_lines(contents);
    let ghost all = lines_spec(contents@);
    let ghost q = query@;
    let mut found: Vec<&'a str> = Vec::new();
    let mut i: usize = 0;
    while i < lines.len()
        invariant
            i <= lines@.len(),
            texts(lines@) == all,
            q == query@,
            texts(found@) == matching(all.take(i as int), q, false),
        decreases lines@.len() - i,
    {
        let line = lines[i];
        assert(all[i as int] == line@);
        let keep = contains_text(line, query);
        let ghost before = found@;
        if keep {
            found.push(line);
        }
        proof {
            let t = all.take(i + 1 as int);
            assert(t.drop_last() =~= all.take(i as int));
            assert(t.last() == line@);
            assert(line_matches(line@, q, false) == keep);
            if keep {
                assert(texts(found@) =~= texts(before).push(line@));
            } else {
                assert(found@ == before);
            }
            assert(texts(found@) == matching(t, q, false));
        }
        i = i + 1;
    }
    assert(all.take(i as int) =~= all);
    found
}

/// The lines of `contents` that contain `query` when both are lower-cased.
pub fn search_case_insensitive<'a>(query: &str, contents: &'a str) -> (r: Vec<&'a str>)
    ensures
        texts(r@) == matching(lines_spec(contents@), query@, true),
{
    let ghost q = query@;
    let query = lowercase(query);
    let lines = split_lines(contents);
    let ghost all = lines_spec(contents@);
    let mut found: Vec<&'a str> = Vec::new();
    let mut i: usize = 0;
    while i < lines.len()
        invariant
            i <= lines@.len(),
            texts(lines@) == all,
            lower_of(q) == query@,
            texts(found@) == matching(all.take(i as int), q, true),
        decreases lines@.len() - i,
    {
        let line = lines[i];
        assert(all[i as int] == line@);
        let lowered = lowercase(line);
        let keep = contains_text(lowered.as_str(), query.as_str());
        let ghost before = found@;
        if keep {
            found.push(line);
        }
        proof {
            let t = all.take(i + 1 as int);
            assert(t.drop_last() =~= all.take(i as int));
            assert(t.last() == line@);
            assert(line_matches(line@, q, true) == keep);
            if keep {
                assert(texts(found@) =~= texts(before).push(line@));
            } else {
                assert(found@ == before);
            }
            assert(texts(found@) == matching(t, q, true));
        }
        i = i + 1;
    }
    assert(all.take(i as int) =~= all);
    found
}

/// What the search tool was asked for.
pub struct Config {
    pub query: String,
    pub file_path: String,
    pub ignore_case: bool,
}

impl Config {
    /// Reads the command line `args` (the program's name first, then the query,
    /// then the file's path); `ignore_case` comes from the environment.
    pub fn build(args: &Vec<String>, ignore_case: bool) -> (r: Result<Config, &'static str>)
        ensures
            args@.len() < 2 ==> r == Err::<Config, &'static str>("Didn't get a query string"),
            args@.len() == 2 ==> r == Err::<Config, &'static str>("Didn't get a file path"),
            args@.len() > 2 ==> (r matches Ok(c) && c.query@ == args@[1]@ && c.file_path@ == args@[2]@
                && c.ignore_case == ignore_case),
    {
        if args.len() < 2 {
            return Err("Didn't get a query string");
        }
        if args.len() < 3 {
            return Err("Didn't get a file path");
        }
        let query = args[1].clone();
        let file_path = args[2].clone();
        Ok(Config { query, file_path, ignore_case })
    }

    /// The lines of `contents` that match the query, ignoring case if asked.
    pub fn search<'a>(&self, contents: &'a str) -> (r: Vec<&'a str>)
        ensures
            !self.ignore_case ==> texts(r@) == matching(lines_spec(contents@), self.query@, false),
            self.ignore_case ==> texts(r@) == matching(lines_spec(contents@), self.query@, true),
    {
        if self.ignore_case {
            search_case_insensitive(self.query.as_str(), contents)
        } else {
            search_case_sensitive(self.query.as_str(), contents)
        }
    }
}

} // verus!
