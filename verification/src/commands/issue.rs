//! The `issue` subcommands.

use vstd::prelude::*;
use vstd::string::StringExecFns;
use crate::split::{
    after_first, before_first, cut_at_first, strip_suffix, trim_text, trimmed, without_suffix,
};
use crate::text::{chars_of, matches_at, starts_with};

verus! {

/// Arguments of the `issue` command.
#[derive(Debug, Clone)]
pub struct IssueArgs {
    pub command: IssueCommands,
}

/// What to ask about issues.
#[derive(Debug, Clone)]
pub enum IssueCommands {
    /// List issues.
    List {
        /// `open`, `closed` or `all`.
        state: String,
        /// Only issues assigned to this account.
        assignee: Option<String>,
        /// Only issues assigned to whoever is logged in.
        assigned_to_me: bool,
        /// How many issues to show at most.
        limit: usize,
    },
}

/// A remote address that names no repository.
#[derive(Debug, Clone, PartialEq, Eq)]
pub struct RepoUrlError {
    /// The address, without the white space around it.
    pub url: String,
}

/// The part of a remote address that holds owner and repository: in an SSH
/// address (`git@host:owner/repo`) what follows the first colon, up to the
/// next; in any other what follows the first `github.com/`, up to the next.
/// Empty where the address has no such part.
pub open spec fn repo_path(url: Seq<char>) -> Seq<char> {
    let sep = if starts_with(url, "git@"@) { ":"@ } else { "github.com/"@ };
    match after_first(url, sep) {
        Some(rest) => before_first(rest, sep),
        None => Seq::empty(),
    }
}

/// Owner and repository that a remote address names: the first two
/// components of its repository part, the second without any `.git` at its
/// end. None where that part has no `/`.
pub open spec fn repo_named(url: Seq<char>) -> Option<(Seq<char>, Seq<char>)> {
    let path = repo_path(trimmed(url));
    match after_first(path, "/"@) {
        Some(rest) => Some(
            (before_first(path, "/"@), without_suffix(before_first(rest, "/"@), ".git"@)),
        ),
        None => None,
    }
}

/// The account whose issues to list: whoever is logged in where the command
/// asks for that, else the account that it names, if any.
pub open spec fn assignee_wanted(
    assignee: Option<Seq<char>>,
    assigned_to_me: bool,
    current_user: Seq<char>,
) -> Option<Seq<char>> {
    if assigned_to_me {
        Some(current_user)
    } else {
        assignee
    }
}

/// The items with `sep` between each two of them.
pub open spec fn joined(items: Seq<Seq<char>>, sep: Seq<char>) -> Seq<char>
    decreases items.len(),
{
    if items.len() == 0 {
        Seq::empty()
    } else if items.len() == 1 {
        items[0]
    } else {
        joined(items.drop_last(), sep) + sep + items.last()
    }
}

/// The labels of an issue as shown in a listing: in brackets, with commas;
/// nothing at all where that would be empty brackets.
pub open spec fn labels_shown(labels: Seq<Seq<char>>) -> Seq<char> {
    let list = joined(labels, ", "@);
    if list.len() == 0 {
        Seq::empty()
    } else {
        "["@ + list + "]"@
    }
}

impl RepoUrlError {
    /// A sentence that names the address.
    pub fn message(&self) -> (message: String)
        ensures
            message@ == "Could not parse repo from URL: "@ + self.url@,
    {
        let mut message = "Could not parse repo from URL: ".to_owned();
        message.append(self.url.as_str());
        message
    }
}

impl IssueCommands {
    /// Tests whether the command needs to know who is logged in.
    pub fn asks_for_current_user(&self) -> (asks: bool)
        ensures
            asks == (match *self {
                IssueCommands::List { assigned_to_me, .. } => assigned_to_me,
            }),
    {
        match self {
            IssueCommands::List { assigned_to_me, .. } => *assigned_to_me,
        }
    }

    /// The account whose issues to list, given who is logged in.
    pub fn assignee_filter(&self, current_user: &str) -> (wanted: Option<String>)
        ensures
            wanted.deep_view() == (match *self {
                IssueCommands::List { assignee, assigned_to_me, .. } => assignee_wanted(
                    assignee.deep_view(),
                    assigned_to_me,
                    current_user@,
                ),
            }),
    {
        match self {
            IssueCommands::List { assignee, assigned_to_me, .. } => {
                if *assigned_to_me {
                    Some(current_user.to_owned())
                } else {
                    match assignee {
                        Some(name) => Some(name.clone()),
                        None => None,
                    }
                }
            },
        }
    }
}

/// Reads owner and repository out of a remote address such as
/// `https://github.com/owner/repo.git` or `git@github.com:owner/repo.git`.
pub fn parse_repo_from_url(url: &str) -> (parsed: Result<(String, String), RepoUrlError>)
    ensures
        match repo_named(url@) {
            Some((owner, repo)) => parsed is Ok && parsed->Ok_0.0@ == owner && parsed->Ok_0.1@
                == repo,
            None => parsed is Err && parsed->Err_0.url@ == trimmed(url@),
        },
{
    let url = trim_text(url);
    let url_chars = chars_of(url);
    let ssh_mark = chars_of("git@");
    let sep = if matches_at(url_chars.as_slice(), ssh_mark.as_slice(), 0) {
        ":"
    } else {
        "github.com/"
    };
    let path = match cut_at_first(url, sep).1 {
        Some(rest) => cut_at_first(rest, sep).0,
        None => "",
    };
    proof {
        reveal_strlit("");
        assert(path@ =~= repo_path(url@));
    }
    let (owner, rest) = cut_at_first(path, "/");
    match rest {
        Some(rest) => {
            let repo = strip_suffix(cut_at_first(rest, "/").0, ".git");
            Ok((owner.to_owned(), repo.to_owned()))
        },
        None => Err(RepoUrlError { url: url.to_owned() }),
    }
}

/// Writes `items` with `sep` between each two of them.
pub fn join(items: &Vec<String>, sep: &str) -> (list: String)
    ensures
        list@ == joined(items.deep_view(), sep@),
{
    let ghost all = items.deep_view();
    let mut list = String::new();
    let mut i: usize = 0;
    while i < items.len()
        invariant
            i <= items.len(),
            all == items.deep_view(),
            list@ == joined(all.take(i as int), sep@),
        decreases items.len() - i,
    {
        assert(all.take(i + 1).drop_last() =~= all.take(i as int));
        if i > 0 {
            list.append(sep);
        }
        list.append(items[i].as_str());
        assert(list@ =~= joined(all.take(i + 1), sep@));
        i += 1;
    }
    assert(all.take(i as int) =~= all);
    list
}

/// The labels of an issue as shown in a listing.
pub fn labels_tag(labels: &Vec<String>) -> (shown: String)
    ensures
        shown@ == labels_shown(labels.deep_view()),
{
    let list = join(labels, ", ");
    if list.as_str().is_empty() {
        list
    } else {
        let mut shown = "[".to_owned();
        shown.append(list.as_str());
        shown.append("]");
        shown
    }
}

} // verus!
