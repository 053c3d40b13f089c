use vstd::prelude::*;
use crate::analyzer::{matched, Arguments};
use crate::text::{contains_string, replace_char, replace_char_with};

verus! {

/// The flag that asks for a private clone.
pub open spec fn private_flag() -> Seq<char> {
    "--priv"@
}

/// The URL a repository is cloned from.
pub open spec fn github_url_of(username: Seq<char>, repo: Seq<char>) -> Seq<char> {
    "https://github.com/"@ + username + "/"@ + repo + ".git"@
}

/// Outcome of scanning the first three arguments for one that is not in a
/// list of values to skip.
pub enum Pick {
    /// The argument at this (0-based) position was chosen.
    At(int),
    /// The first three arguments all had to be skipped.
    Exhausted,
    /// The scan ran past the last argument: reading it would fail.
    OutOfRange,
}

/// Scans positions `from`, `from + 1`, ... below 3 for the first argument
/// not listed in `skip`.
pub open spec fn pick(args: Seq<Seq<char>>, from: int, skip: Seq<Seq<char>>) -> Pick
    decreases 3 - from,
{
    if from >= 3 {
        Pick::Exhausted
    } else if from >= args.len() {
        Pick::OutOfRange
    } else if !skip.contains(args[from]) {
        Pick::At(from)
    } else {
        pick(args, from + 1, skip)
    }
}

/// With at least three arguments a scan never runs past the last one.
proof fn lemma_pick_in_range(args: Seq<Seq<char>>, from: int, skip: Seq<Seq<char>>)
    requires
        args.len() >= 3,
        0 <= from,
    ensures
        !(pick(args, from, skip) is OutOfRange),
    decreases 3 - from,
{
    if from < 3 && skip.contains(args[from]) {
        lemma_pick_in_range(args, from + 1, skip);
    }
}

/// A chosen position lies within the scanned range and holds an argument
/// that is not skipped.
proof fn lemma_pick_at(args: Seq<Seq<char>>, from: int, skip: Seq<Seq<char>>)
    requires
        0 <= from,
    ensures
        pick(args, from, skip) matches Pick::At(i) ==> from <= i < 3 && i < args.len()
            && !skip.contains(args[i]),
    decreases 3 - from,
{
    if from < 3 && from < args.len() && skip.contains(args[from]) {
        lemma_pick_at(args, from + 1, skip);
    }
}

/// The chosen argument, or the empty text when none was chosen.
pub open spec fn picked_text(args: Seq<Seq<char>>, p: Pick) -> Seq<char> {
    match p {
        Pick::At(i) => args[i],
        _ => Seq::empty(),
    }
}

/// The user name of a private clone.
pub open spec fn private_username(args: Seq<Seq<char>>) -> Seq<char> {
    picked_text(args, pick(args, 0, seq![private_flag()]))
}

/// The repository of a private clone.
pub open spec fn private_repo(args: Seq<Seq<char>>) -> Seq<char> {
    picked_text(args, pick(args, 0, seq![private_flag(), private_username(args)]))
}

/// The destination of a private clone; `None` stands for the directory
/// named after the repository inside the current directory.
pub open spec fn private_destination(args: Seq<Seq<char>>) -> Option<Seq<char>> {
    if args.len() == 4 {
        match pick(
            args,
            0,
            seq![private_repo(args), private_flag(), private_username(args)],
        ) {
            Pick::At(i) => Some(args[i]),
            _ => None,
        }
    } else {
        None
    }
}

/// The arguments on which a plan can be made: a private clone must find
/// its user name and repository within the arguments given.
pub open spec fn plan_defined(args: Seq<Seq<char>>) -> bool {
    args.contains(private_flag()) ==> {
        &&& !(pick(args, 0, seq![private_flag()]) is OutOfRange)
        &&& !(pick(args, 0, seq![private_flag(), private_username(args)]) is OutOfRange)
    }
}

/// What a clone command line asks for, as text.
pub enum PlanView {
    Help,
    Version,
    Nothing,
    Public { username: Seq<char>, repo: Seq<char>, url: Seq<char>, destination: Option<Seq<char>> },
    Private { username: Seq<char>, repo: Seq<char>, url: Seq<char>, destination: Option<Seq<char>> },
}

/// What the clone command does with the arguments `args`.
pub open spec fn clone_plan(args: Seq<Seq<char>>) -> PlanView {
    if !args.contains(private_flag()) {
        if args.len() == 1 {
            if args[0] == "help"@ {
                PlanView::Help
            } else if args[0] == "version"@ {
                PlanView::Version
            } else {
                PlanView::Nothing
            }
        } else if args.len() >= 2 {
            PlanView::Public {
                username: args[0],
                repo: args[1],
                url: github_url_of(args[0], args[1]),
                destination: if args.len() == 3 {
                    Some(args[2])
                } else {
                    None
                },
            }
        } else {
            PlanView::Nothing
        }
    } else {
        PlanView::Private {
            username: private_username(args),
            repo: private_repo(args),
            url: github_url_of(private_username(args), private_repo(args)),
            destination: private_destination(args),
        }
    }
}

/// What a clone command line asks for.
pub enum ClonePlan {
    /// Show the help text.
    Help,
    /// Show the version.
    Version,
    /// Do nothing.
    Nothing,
    /// Clone a public repository; without a destination the clone goes
    /// into a directory named after the repository.
    Public { username: String, repo: String, url: String, destination: Option<String> },
    /// Clone a private repository with a stored access token.
    Private { username: String, repo: String, url: String, destination: Option<String> },
}

pub open spec fn opt_view(o: Option<String>) -> Option<Seq<char>> {
    match o {
        Some(s) => Some(s@),
        None => None,
    }
}

impl View for ClonePlan {
    type V = PlanView;

    open spec fn view(&self) -> PlanView {
        match self {
            ClonePlan::Help => PlanView::Help,
            ClonePlan::Version => PlanView::Version,
            ClonePlan::Nothing => PlanView::Nothing,
            ClonePlan::Public { username, repo, url, destination } => PlanView::Public {
                username: username@,
                repo: repo@,
                url: url@,
                destination: opt_view(*destination),
            },
            ClonePlan::Private { username, repo, url, destination } => PlanView::Private {
                username: username@,
                repo: repo@,
                url: url@,
                destination: opt_view(*destination),
            },
        }
    }
}

/// `https://github.com/<username>/<repo>.git`
pub fn github_url(username: &String, repo: &String) -> (r: String)
    ensures
        r@ == github_url_of(username@, repo@),
{
    let mut url = String::from_str("https://github.com/");
    url.append(username.as_str());
    url.append("/");
    url.append(repo.as_str());
    url.append(".git");
    url
}

/// An access token as stored and used: every line break removed.
pub fn clean_token(token: &String) -> (r: String)
    ensures
        r@ == replace_char(token@, '\n', Seq::empty()),
{
    let r = replace_char_with(token.as_str(), '\n', "");
    proof {
        assert(""@ =~= Seq::<char>::empty()) by {
            reveal_strlit("");
        }
    }
    r
}

/// Scans the first three arguments for one that is not in `skip`; `None`
/// when all three are to be skipped.
fn pick_argument(args: &Arguments, skip: &Vec<String>) -> (r: Option<usize>)
    requires
        !(pick(args.given(), 0, skip.deep_view()) is OutOfRange),
    ensures
        match pick(args.given(), 0, skip.deep_view()) {
            Pick::At(i) => 0 <= i < 3 && r == Some(i as usize),
            _ => r is None,
        },
        r matches Some(i) ==> i < 3 && i < args.given().len(),
{
    let ghost g = args.given();
    let ghost sk = skip.deep_view();
    proof {
        lemma_pick_at(g, 0, sk);
    }
    let mut x: usize = 0;
    while x < 3
        invariant
            x <= 3,
            g == args.given(),
            sk == skip.deep_view(),
            pick(g, 0, sk) == pick(g, x as int, sk),
            !(pick(g, 0, sk) is OutOfRange),
            pick(g, 0, sk) matches Pick::At(i) ==> 0 <= i < 3,
        decreases 3 - x,
    {
        let n = args.gotlen();
        if x >= n {
            assert(false);
        }
        let value = args.fetch(x + 1);
        if !contains_string(skip, &value) {
            return Some(x);
        }
        x = x + 1;
    }
    None
}

/// Whether a plan can be made from `cli` (a private clone that would read
/// past the last argument cannot).
pub fn can_plan(cli: &Vec<String>) -> (r: bool)
    ensures
        r == plan_defined(cli.deep_view()),
{
    let args = Arguments::new(cli.clone());
    let flag = String::from_str("--priv");
    if !contains_string(cli, &flag) {
        return true;
    }
    let skip1 = vec![flag.clone()];
    assert(skip1.deep_view() =~= seq![private_flag()]);
    if scan_out_of_range(&args, &skip1) {
        return false;
    }
    let user = match pick_argument(&args, &skip1) {
        Some(i) => args.fetch(i + 1),
        None => String::new(),
    };
    let skip2 = vec![flag, user];
    assert(skip2.deep_view() =~= seq![private_flag(), private_username(cli.deep_view())]);
    !scan_out_of_range(&args, &skip2)
}

/// Whether scanning the first three arguments past `skip` runs past the
/// last argument.
fn scan_out_of_range(args: &Arguments, skip: &Vec<String>) -> (r: bool)
    ensures
        r == (pick(args.given(), 0, skip.deep_view()) is OutOfRange),
{
    let ghost g = args.given();
    let ghost sk = skip.deep_view();
    let n = args.gotlen();
    let mut x: usize = 0;
    while x < 3
        invariant
            x <= 3,
            n == g.len(),
            g == args.given(),
            sk == skip.deep_view(),
            pick(g, 0, sk) == pick(g, x as int, sk),
        decreases 3 - x,
    {
        if x >= n {
            return true;
        }
        let value = args.fetch(x + 1);
        if !contains_string(skip, &value) {
            return false;
        }
        x = x + 1;
    }
    false
}

/// Works out what the clone command does with its arguments `cli`.
pub fn plan_clone(cli: Vec<String>) -> (r: ClonePlan)
    requires
        plan_defined(cli.deep_view()),
    ensures
        r@ == clone_plan(cli.deep_view()),
{
    let ghost g = cli.deep_view();
    let mut args = Arguments::new(cli);
    args.add("--priv");
    args.analyze();
    let flag = String::from_str("--priv");
    proof {
        assert(seq![private_flag()].drop_last() =~= Seq::<Seq<char>>::empty());
        assert(matched(Seq::<Seq<char>>::empty(), g) =~= Seq::<Seq<char>>::empty());
        assert(Seq::<Seq<char>>::empty().push(private_flag()) =~= seq![private_flag()]);
        if g.contains(private_flag()) {
            assert(args.found() =~= seq![private_flag()]);
            assert(args.found()[0] == private_flag());
        } else {
            assert(args.found() =~= Seq::<Seq<char>>::empty());
        }
    }
    let private = contains_string(args.found_arguments(), &flag);
    if !private {
        let n = args.gotlen();
        if n == 1 {
            let first = args.fetch(1);
            if first == String::from_str("help") {
                ClonePlan::Help
            } else if first == String::from_str("version") {
                ClonePlan::Version
            } else {
                ClonePlan::Nothing
            }
        } else if n >= 2 {
            let username = args.fetch(1);
            let repo = args.fetch(2);
            let url = github_url(&username, &repo);
            let destination = if n == 3 {
                Some(args.fetch(3))
            } else {
                None
            };
            ClonePlan::Public { username, repo, url, destination }
        } else {
            ClonePlan::Nothing
        }
    } else {
        let skip1 = vec![flag.clone()];
        assert(skip1.deep_view() =~= seq![private_flag()]);
        let username = match pick_argument(&args, &skip1) {
            Some(i) => args.fetch(i + 1),
            None => String::new(),
        };
        let skip2 = vec![flag.clone(), username.clone()];
        assert(skip2.deep_view() =~= seq![private_flag(), private_username(g)]);
        let repo = match pick_argument(&args, &skip2) {
            Some(i) => args.fetch(i + 1),
            None => String::new(),
        };
        let url = github_url(&username, &repo);
        let destination = if args.gotlen() == 4 {
            proof {
                lemma_pick_in_range(g, 0, seq![private_repo(g), private_flag(), private_username(g)]);
            }
            let skip3 = vec![repo.clone(), flag, username.clone()];
            assert(skip3.deep_view() =~= seq![private_repo(g), private_flag(), private_username(g)]);
            match pick_argument(&args, &skip3) {
                Some(i) => Some(args.fetch(i + 1)),
                None => None,
            }
        } else {
            None
        };
        ClonePlan::Private { username, repo, url, destination }
    }
}

/// In a private clone the user name, the repository and an explicit
/// destination are never the private flag itself; the repository differs
/// from the user name unless neither was found, and the destination
/// differs from both.
pub proof fn law_private_choices_skip_flag(args: Seq<Seq<char>>)
    requires
        plan_defined(args),
        args.contains(private_flag()),
    ensures
        private_username(args) != private_flag(),
        private_repo(args) != private_flag(),
        private_repo(args) != private_username(args) || (private_repo(args).len() == 0
            && private_username(args).len() == 0),
        private_destination(args) matches Some(d) ==> d != private_flag() && d
            != private_username(args) && d != private_repo(args),
{
    let s1 = seq![private_flag()];
    let s2 = seq![private_flag(), private_username(args)];
    let s3 = seq![private_repo(args), private_flag(), private_username(args)];
    lemma_pick_at(args, 0, s1);
    lemma_pick_at(args, 0, s2);
    lemma_pick_at(args, 0, s3);
    assert(s1[0] == private_flag());
    assert(s2[0] == private_flag() && s2[1] == private_username(args));
    assert(s3[0] == private_repo(args) && s3[1] == private_flag() && s3[2] == private_username(args));
    assert("--priv"@.len() > 0) by {
        reveal_strlit("--priv");
    }
}

/// With at least three arguments every command line can be planned,
/// wherever `--priv` stands.
pub proof fn law_three_arguments_always_plannable(args: Seq<Seq<char>>)
    requires
        args.len() >= 3,
    ensures
        plan_defined(args),
{
    lemma_pick_in_range(args, 0, seq![private_flag()]);
    lemma_pick_in_range(args, 0, seq![private_flag(), private_username(args)]);
}

/// When `--priv` stands at one of the first three positions and the other
/// two hold two different other arguments, the clone is private, of the
/// earlier of the two as user name and the later as repository, whatever
/// position the flag takes.
pub proof fn law_private_user_and_repo_around_flag(args: Seq<Seq<char>>, p: int, i: int, j: int)
    requires
        args.len() >= 3,
        0 <= i < j < 3,
        0 <= p < 3,
        p != i && p != j,
        args[p] == "--priv"@,
        args[i] != "--priv"@,
        args[j] != "--priv"@,
        args[i] != args[j],
    ensures
        plan_defined(args),
        clone_plan(args) matches PlanView::Private { username, repo, url, .. } && username
            == args[i] && repo == args[j] && url == "https://github.com/"@ + args[i] + "/"@
            + args[j] + ".git"@,
{
    law_three_arguments_always_plannable(args);
    assert(args.contains(private_flag()));
    let s1 = seq![private_flag()];
    assert(s1[0] == args[p]);
    assert(s1.contains(args[p]));
    assert(!s1.contains(args[i])) by {
        if s1.contains(args[i]) {
            assert(s1[0] == args[i]);
        }
    }
    if i == 0 {
        assert(pick(args, 0, s1) == Pick::At(0));
    } else {
        assert(p == 0 && i == 1);
        assert(pick(args, 1, s1) == Pick::At(1));
    }
    assert(private_username(args) == args[i]);
    let s2 = seq![private_flag(), args[i]];
    assert(s2.contains(args[p]) && s2.contains(args[i])) by {
        assert(s2[0] == args[p]);
        assert(s2[1] == args[i]);
    }
    assert(!s2.contains(args[j])) by {
        if s2.contains(args[j]) {
            let k = choose|k: int| 0 <= k < 2 && s2[k] == args[j];
            assert(k == 0 || k == 1);
        }
    }
    if j == 1 {
        assert(pick(args, 1, s2) == Pick::At(1));
        assert(pick(args, 0, s2) == Pick::At(1));
    } else {
        assert(pick(args, 2, s2) == Pick::At(2));
        assert(pick(args, 1, s2) == Pick::At(2));
        assert(pick(args, 0, s2) == Pick::At(2));
    }
    assert(private_repo(args) == args[j]);
}

/// A command line can be planned exactly when it is not a private clone,
/// or it has at least three arguments: with `--priv` and fewer arguments
/// there is no second argument to take the repository from.
pub proof fn law_plannable_iff(args: Seq<Seq<char>>)
    ensures
        plan_defined(args) <==> (!args.contains("--priv"@) || args.len() >= 3),
{
    if args.len() >= 3 {
        law_three_arguments_always_plannable(args);
    } else if args.contains(private_flag()) {
        let f = private_flag();
        let s1 = seq![f];
        let u = private_username(args);
        let s2 = seq![f, u];
        let p = choose|p: int| 0 <= p < args.len() && args[p] == f;
        assert(s1[0] == f && s2[0] == f && s2[1] == u);
        assert(s1.contains(f) && s2.contains(f) && s2.contains(u));
        if args.len() == 1 {
            assert(args[0] == f);
            assert(pick(args, 1, s1) is OutOfRange);
            assert(pick(args, 0, s1) is OutOfRange);
        } else {
            // two arguments, one of them the flag
            let q = 1 - p;
            assert(0 <= q < 2);
            if args[q] == f {
                assert(args[0] == f && args[1] == f);
                assert(pick(args, 2, s1) is OutOfRange);
                assert(pick(args, 0, s1) is OutOfRange);
            } else {
                assert(!s1.contains(args[q])) by {
                    if s1.contains(args[q]) {
                        assert(s1[0] == args[q]);
                    }
                }
                if q == 0 {
                    assert(pick(args, 0, s1) == Pick::At(0));
                } else {
                    assert(pick(args, 1, s1) == Pick::At(1));
                    assert(pick(args, 0, s1) == Pick::At(1));
                }
                assert(u == args[q]);
                assert(s2.contains(args[0]) && s2.contains(args[1])) by {
                    assert(args[p] == s2[0]);
                    assert(args[q] == s2[1]);
                }
                assert(pick(args, 2, s2) is OutOfRange);
                assert(pick(args, 1, s2) is OutOfRange);
                assert(pick(args, 0, s2) is OutOfRange);
            }
        }
    }
}

/// Without `--priv`, two or more arguments clone the repository named by
/// the second argument of the user named by the first, into the third
/// argument when there are exactly three.
pub proof fn law_public_clone(args: Seq<Seq<char>>)
    requires
        !args.contains("--priv"@),
        args.len() >= 2,
    ensures
        clone_plan(args) matches PlanView::Public { username, repo, url, destination } && username
            == args[0] && repo == args[1] && url == "https://github.com/"@ + args[0] + "/"@
            + args[1] + ".git"@ && (destination is Some <==> args.len() == 3) && (args.len() == 3
            ==> destination == Some(args[2])),
{
}

} // verus!
