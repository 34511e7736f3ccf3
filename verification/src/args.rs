use vstd::prelude::*;
use crate::split::field_views;

verus! {

/// The fixed reporting template handed verbatim to the external tool: one
/// newline-terminated record per commit, six pipe-delimited separators between
/// change identifier, bookmark names, author email, commit date, first line of
/// the description, working-copy marker and immutability marker.
pub open spec fn log_template_spec() -> Seq<char> {
    r#"concat(
        change_id.shortest(8),
        "|",
        bookmarks.map(|b| b.name()).join(" "),
        "|",
        author.email(),
        "|",
        committer.timestamp().format("%Y-%m-%d"),
        "|",
        description.first_line(),
        "|",
        if(self.current_working_copy(), "working", ""),
        "|",
        if(immutable, "immutable", ""),
        "\n"
    )"#@
}

/// The template as passed to the external tool.
pub fn log_template() -> (r: &'static str)
    ensures
        r@ == log_template_spec(),
{
    r#"concat(
        change_id.shortest(8),
        "|",
        bookmarks.map(|b| b.name()).join(" "),
        "|",
        author.email(),
        "|",
        committer.timestamp().format("%Y-%m-%d"),
        "|",
        description.first_line(),
        "|",
        if(self.current_working_copy(), "working", ""),
        "|",
        if(immutable, "immutable", ""),
        "\n"
    )"#
}

/// The argument vector of a log fetch: a fixed no-graph, no-color rendering
/// with the reporting template, scoped by `-R` to the resolved path.
pub open spec fn log_args_spec(path: Seq<char>) -> Seq<Seq<char>> {
    seq!["log"@, "--no-graph"@, "--color=never"@, "-T"@, log_template_spec(), "-R"@, path]
}

/// The argument vector of a description update: the revision selector, the
/// message after `-m` as one argument, and the repository path after `-R`.
pub open spec fn describe_args_spec(revision: Seq<char>, message: Seq<char>, path: Seq<char>) -> Seq<
    Seq<char>,
> {
    seq!["describe"@, revision, "-m"@, message, "-R"@, path]
}

/// The argument vector of a screenshot capture: interactive window selection
/// without a shadow, writing to the given path.
pub open spec fn screenshot_args_spec(path: Seq<char>) -> Seq<Seq<char>> {
    seq!["-w"@, "-o"@, path]
}

/// Builds the log-fetch argument vector for the external tool.
pub fn log_args(path: &str) -> (r: Vec<String>)
    ensures
        field_views(r@) == log_args_spec(path@),
{
    let mut v: Vec<String> = Vec::new();
    v.push("log".to_owned());
    v.push("--no-graph".to_owned());
    v.push("--color=never".to_owned());
    v.push("-T".to_owned());
    v.push(log_template().to_owned());
    v.push("-R".to_owned());
    v.push(path.to_owned());
    proof {
        assert(field_views(v@) =~~= log_args_spec(path@));
    }
    v
}

/// Builds the description-update argument vector for the external tool. The
/// message travels as a single argument: no shell re-splitting can occur,
/// whatever spaces or quotes it holds.
pub fn describe_args(revision: &str, message: &str, path: &str) -> (r: Vec<String>)
    ensures
        field_views(r@) == describe_args_spec(revision@, message@, path@),
{
    let mut v: Vec<String> = Vec::new();
    v.push("describe".to_owned());
    v.push(revision.to_owned());
    v.push("-m".to_owned());
    v.push(message.to_owned());
    v.push("-R".to_owned());
    v.push(path.to_owned());
    proof {
        assert(field_views(v@) =~~= describe_args_spec(revision@, message@, path@));
    }
    v
}

/// Builds the screenshot utility's argument vector.
pub fn screenshot_args(path: &str) -> (r: Vec<String>)
    ensures
        field_views(r@) == screenshot_args_spec(path@),
{
    let mut v: Vec<String> = Vec::new();
    v.push("-w".to_owned());
    v.push("-o".to_owned());
    v.push(path.to_owned());
    proof {
        assert(field_views(v@) =~~= screenshot_args_spec(path@));
    }
    v
}

/// Resolves the repository path for a log fetch: the explicit argument wins,
/// then the home directory, then the current directory. A fallback always
/// applies, so a path is always determined.
pub fn resolve_repo_path(repo: Option<String>, home: Option<String>, cwd: String) -> (r: String)
    ensures
        repo matches Some(p) ==> r == p,
        repo is None ==> (home matches Some(h) ==> r == h),
        repo is None && home is None ==> r == cwd,
{
    match repo {
        Some(p) => p,
        None => match home {
            Some(h) => h,
            None => cwd,
        },
    }
}

/// The log-fetch argument vector always carries `-R` followed by the resolved
/// path, whatever the path is.
pub proof fn lemma_log_args_contain_path(path: Seq<char>)
    ensures
        exists|i: int|
            0 <= i && i + 1 < log_args_spec(path).len() && #[trigger] log_args_spec(path)[i]
                == "-R"@ && log_args_spec(path)[i + 1] == path,
{
    let w: int = 5;
    assert(0 <= w && w + 1 < log_args_spec(path).len() && log_args_spec(path)[w] == "-R"@
        && log_args_spec(path)[w + 1] == path);
}

} // verus!
