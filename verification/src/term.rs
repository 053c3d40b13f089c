use vstd::prelude::*;
use crate::cli::{
    argrust_add, argrust_analyse, argrust_fetch, argrust_fetched, argrust_found,
    argrust_ifarg, argrust_ifarg_force, argrust_new, argrust_reports, argrust_state,
    distinct_registrations, law_given_registration_is_reported, lemma_reported_name_is_fetchable,
    lemma_reported_name_was_given,
    FetchMode,
};

verus! {

/// The options of the `term` command, with their short forms.
pub open spec fn top_registrations() -> Seq<(Seq<char>, Seq<char>)> {
    seq![("help"@, "-h"@), ("license"@, "-l"@), ("version"@, "-v"@), ("create"@, "-c"@)]
}

/// The parser state after analysing the `term` command line `args`.
pub open spec fn top_state(args: Seq<Seq<char>>) -> (
    Seq<Seq<char>>,
    Seq<(Seq<char>, Seq<char>)>,
    Seq<Seq<char>>,
) {
    (args, top_registrations(), argrust_found(args, top_registrations()))
}

/// Which thing the `term` command does.
#[derive(PartialEq, Eq, Structural, Clone, Copy)]
pub enum TopChoice {
    Help,
    License,
    Version,
    Create,
    Nothing,
}

/// What the `term` command does with its arguments: help, license and
/// version win over each other in that order, then `create`.
pub open spec fn top_choice(args: Seq<Seq<char>>) -> TopChoice {
    let st = top_state(args);
    if argrust_reports(st, "help"@) {
        TopChoice::Help
    } else if argrust_reports(st, "license"@) {
        TopChoice::License
    } else if argrust_reports(st, "version"@) {
        TopChoice::Version
    } else if argrust_reports(st, "create"@) {
        TopChoice::Create
    } else {
        TopChoice::Nothing
    }
}

/// What the `term` command line asks for.
pub enum TopCommand {
    Help,
    License,
    Version,
    /// `create`, with the arguments that follow it.
    Create(Vec<String>),
    Nothing,
}

pub open spec fn top_command_choice(c: TopCommand) -> TopChoice {
    match c {
        TopCommand::Help => TopChoice::Help,
        TopCommand::License => TopChoice::License,
        TopCommand::Version => TopChoice::Version,
        TopCommand::Create(_) => TopChoice::Create,
        TopCommand::Nothing => TopChoice::Nothing,
    }
}

/// The sub-options of `term create`, with their short forms.
pub open spec fn create_registrations() -> Seq<(Seq<char>, Seq<char>)> {
    seq![("callable"@, "-cal"@), ("init"@, "-i"@), ("system"@, "-sys"@)]
}

/// The options of an application callable, with their short forms.
pub open spec fn app_registrations() -> Seq<(Seq<char>, Seq<char>)> {
    seq![("application"@, "-app"@), ("system"@, "-sys"@)]
}

pub open spec fn create_state(args: Seq<Seq<char>>) -> (
    Seq<Seq<char>>,
    Seq<(Seq<char>, Seq<char>)>,
    Seq<Seq<char>>,
) {
    (args, create_registrations(), argrust_found(args, create_registrations()))
}

/// The parser state for the arguments `rest` that follow `callable`.
pub open spec fn app_state_of(rest: Seq<Seq<char>>) -> (
    Seq<Seq<char>>,
    Seq<(Seq<char>, Seq<char>)>,
    Seq<Seq<char>>,
) {
    (rest, app_registrations(), argrust_found(rest, app_registrations()))
}

/// The parser state for the arguments after `callable` in the arguments
/// `args` of `term create`.
pub open spec fn app_state(args: Seq<Seq<char>>) -> (
    Seq<Seq<char>>,
    Seq<(Seq<char>, Seq<char>)>,
    Seq<Seq<char>>,
) {
    app_state_of(argrust_fetched(create_state(args), "callable"@, FetchMode::TillLast))
}

/// The platform the command runs on.
#[derive(PartialEq, Eq, Structural, Clone, Copy)]
pub enum Platform {
    MacOs,
    Linux,
    Other,
}

/// Which thing `term create` does.
#[derive(PartialEq, Eq, Structural, Clone, Copy)]
pub enum CreateChoice {
    InitCallables,
    DidYouMean,
    AppCallable,
    ShellCallable,
    Nothing,
}

/// What `term create` does with the arguments after `create`.
pub open spec fn create_choice(args: Seq<Seq<char>>, platform: Platform) -> CreateChoice {
    let st = create_state(args);
    let callable = argrust_reports(st, "callable"@);
    let init = argrust_reports(st, "init"@);
    if init && callable {
        CreateChoice::InitCallables
    } else if init {
        CreateChoice::DidYouMean
    } else if callable {
        if platform == Platform::MacOs && argrust_reports(app_state(args), "application"@) {
            CreateChoice::AppCallable
        } else {
            CreateChoice::ShellCallable
        }
    } else {
        CreateChoice::Nothing
    }
}

/// What `term create` asks for.
pub enum CreateCommand {
    /// Set up the shell to load callables.
    InitCallables,
    /// `init` without `callable`.
    DidYouMean,
    /// A callable that opens an application: the values after the
    /// application flag, and whether it is a system application.
    AppCallable { values: Vec<String>, system: bool },
    /// A callable running shell code typed in.
    ShellCallable,
    Nothing,
}

pub open spec fn create_command_choice(c: CreateCommand) -> CreateChoice {
    match c {
        CreateCommand::InitCallables => CreateChoice::InitCallables,
        CreateCommand::DidYouMean => CreateChoice::DidYouMean,
        CreateCommand::AppCallable { .. } => CreateChoice::AppCallable,
        CreateCommand::ShellCallable => CreateChoice::ShellCallable,
        CreateCommand::Nothing => CreateChoice::Nothing,
    }
}

proof fn lemma_top_registrations_distinct()
    ensures
        distinct_registrations(top_registrations()),
{
    reveal_strlit("help");
    reveal_strlit("-h");
    reveal_strlit("license");
    reveal_strlit("-l");
    reveal_strlit("version");
    reveal_strlit("-v");
    reveal_strlit("create");
    reveal_strlit("-c");
    let r = top_registrations();
    assert forall|i: int, j: int| 0 <= i < r.len() && 0 <= j < r.len() implies {
        &&& r[i].0 != r[j].1
        &&& i != j ==> r[i].0 != r[j].0 && r[i].1 != r[j].1
    } by {
        assert(r[i].0[0] != '-');
        assert(r[j].1[0] == '-');
        if i != j {
            assert(r[i].0[0] != r[j].0[0]);
            assert(r[i].1[1] != r[j].1[1]);
        }
    }
}

proof fn lemma_create_registrations_distinct()
    ensures
        distinct_registrations(create_registrations()),
        distinct_registrations(app_registrations()),
{
    reveal_strlit("callable");
    reveal_strlit("-cal");
    reveal_strlit("init");
    reveal_strlit("-i");
    reveal_strlit("system");
    reveal_strlit("-sys");
    reveal_strlit("application");
    reveal_strlit("-app");
    let r = create_registrations();
    assert forall|i: int, j: int| 0 <= i < r.len() && 0 <= j < r.len() implies {
        &&& r[i].0 != r[j].1
        &&& i != j ==> r[i].0 != r[j].0 && r[i].1 != r[j].1
    } by {
        assert(r[i].0[0] != '-');
        assert(r[j].1[0] == '-');
        if i != j {
            assert(r[i].0[0] != r[j].0[0]);
            assert(r[i].1[1] != r[j].1[1]);
        }
    }
    let a = app_registrations();
    assert forall|i: int, j: int| 0 <= i < a.len() && 0 <= j < a.len() implies {
        &&& a[i].0 != a[j].1
        &&& i != j ==> a[i].0 != a[j].0 && a[i].1 != a[j].1
    } by {
        assert(a[i].0[0] != '-');
        assert(a[j].1[0] == '-');
        if i != j {
            assert(a[i].0[0] != a[j].0[0]);
            assert(a[i].1[1] != a[j].1[1]);
        }
    }
}

/// Works out what the `term` command line `args` asks for.
pub fn top_command(args: Vec<String>) -> (r: TopCommand)
    ensures
        top_command_choice(r) == top_choice(args.deep_view()),
        r matches TopCommand::Create(rest) ==> rest.deep_view() == argrust_fetched(
            top_state(args.deep_view()),
            "create"@,
            FetchMode::TillLast,
        ),
{
    let ghost g = args.deep_view();
    let mut a = argrust_new(args);
    argrust_add(&mut a, "help", "help", "show help text", "-h");
    argrust_add(&mut a, "license", "license", "show license", "-l");
    argrust_add(&mut a, "version", "version info", "print version info", "-v");
    argrust_add(&mut a, "create", "create", "suboption - create", "-c");
    assert(argrust_state(a).1 =~= top_registrations());
    argrust_analyse(&mut a);
    assert(argrust_state(a) == top_state(g));
    if argrust_ifarg(&mut a, "help") {
        TopCommand::Help
    } else if argrust_ifarg(&mut a, "license") {
        TopCommand::License
    } else if argrust_ifarg(&mut a, "version") {
        TopCommand::Version
    } else if argrust_ifarg(&mut a, "create") {
        proof {
            lemma_top_registrations_distinct();
            assert(top_registrations()[3].0 == "create"@);
            lemma_reported_name_is_fetchable(top_state(g), 3);
        }
        TopCommand::Create(argrust_fetch(&mut a, "create", FetchMode::TillLast))
    } else {
        TopCommand::Nothing
    }
}

/// The values after the application flag in the arguments `rest` that
/// follow `callable`, or `None` when no application is named there.
pub fn application_values(rest: Vec<String>) -> (r: Option<Vec<String>>)
    ensures
        r is Some == argrust_reports(app_state_of(rest.deep_view()), "application"@),
        r matches Some(values) ==> values.deep_view() == argrust_fetched(
            app_state_of(rest.deep_view()),
            "application"@,
            FetchMode::TillNext,
        ),
{
    let ghost g = rest.deep_view();
    let mut b = argrust_new(rest);
    argrust_add(&mut b, "application", "", "", "-app");
    argrust_add(&mut b, "system", "", "", "-sys");
    assert(argrust_state(b).1 =~= app_registrations());
    argrust_analyse(&mut b);
    assert(argrust_state(b) == app_state_of(g));
    if argrust_ifarg(&mut b, "application") {
        proof {
            lemma_create_registrations_distinct();
            assert(app_registrations()[0].0 == "application"@);
            lemma_reported_name_is_fetchable(app_state_of(g), 0);
        }
        Some(argrust_fetch(&mut b, "application", FetchMode::TillNext))
    } else {
        None
    }
}

/// Works out what `term create` asks for, given the arguments after
/// `create`. The sub-options exist only on macOS and Linux: elsewhere the
/// parser would be analysed with nothing registered, which fails.
pub fn create_command(args: Vec<String>, platform: Platform) -> (r: CreateCommand)
    requires
        platform != Platform::Other,
    ensures
        create_command_choice(r) == create_choice(args.deep_view(), platform),
        r matches CreateCommand::AppCallable { values, system } ==> {
            &&& values.deep_view() == argrust_fetched(
                app_state(args.deep_view()),
                "application"@,
                FetchMode::TillNext,
            )
            &&& system == argrust_reports(create_state(args.deep_view()), "system"@)
        },
{
    let ghost g = args.deep_view();
    let mut a = argrust_new(args);
    argrust_add(&mut a, "callable", "callable", "create callable command", "-cal");
    argrust_add(&mut a, "init", "initialise", "initialise callable commands", "-i");
    argrust_add(&mut a, "system", "", "", "-sys");
    assert(argrust_state(a).1 =~= create_registrations());
    argrust_analyse(&mut a);
    assert(argrust_state(a) == create_state(g));
    proof {
        lemma_create_registrations_distinct();
    }
    if argrust_ifarg(&mut a, "init") && argrust_ifarg(&mut a, "callable") {
        CreateCommand::InitCallables
    } else if !argrust_ifarg_force(&mut a, "callable") && argrust_ifarg_force(&mut a, "init") {
        CreateCommand::DidYouMean
    } else if argrust_ifarg_force(&mut a, "callable") && !argrust_ifarg_force(&mut a, "init") {
        if platform == Platform::MacOs {
            proof {
                assert(create_registrations()[0].0 == "callable"@);
                lemma_reported_name_is_fetchable(create_state(g), 0);
            }
            let rest = argrust_fetch(&mut a, "callable", FetchMode::TillLast);
            match application_values(rest) {
                Some(values) => {
                    let system = argrust_ifarg(&mut a, "system");
                    CreateCommand::AppCallable { values, system }
                },
                None => CreateCommand::ShellCallable,
            }
        } else {
            CreateCommand::ShellCallable
        }
    } else {
        CreateCommand::Nothing
    }
}

/// `help` or `-h` anywhere on the command line shows the help text,
/// whatever else is given.
pub proof fn law_help_given_shows_help(args: Seq<Seq<char>>)
    requires
        args.contains("help"@) || args.contains("-h"@),
    ensures
        top_choice(args) == TopChoice::Help,
{
    let reg = top_registrations();
    assert(reg[0] == ("help"@, "-h"@));
    law_given_registration_is_reported(args, reg, 0);
}

/// `callable` with `init` (or their short forms) after `create` sets up
/// callables, on either platform where creating is possible.
pub proof fn law_callable_init_sets_up(args: Seq<Seq<char>>, platform: Platform)
    requires
        args.contains("callable"@) || args.contains("-cal"@),
        args.contains("init"@) || args.contains("-i"@),
    ensures
        create_choice(args, platform) == CreateChoice::InitCallables,
{
    let reg = create_registrations();
    assert(reg[0] == ("callable"@, "-cal"@));
    assert(reg[1] == ("init"@, "-i"@));
    law_given_registration_is_reported(args, reg, 0);
    law_given_registration_is_reported(args, reg, 1);
}

/// Each option of `term`, by its name or its short form, selects its own
/// command unless an option before it in the order help, license,
/// version, create is also given: `-l` or `license` alone shows the
/// license, `-v` or `version` alone the version, `-c` or `create` alone
/// starts `create`.
pub proof fn law_option_selects_its_command(args: Seq<Seq<char>>)
    ensures
        (args.contains("license"@) || args.contains("-l"@)) && !args.contains("help"@)
            && !args.contains("-h"@) ==> top_choice(args) == TopChoice::License,
        (args.contains("version"@) || args.contains("-v"@)) && !args.contains("help"@)
            && !args.contains("-h"@) && !args.contains("license"@) && !args.contains("-l"@)
            ==> top_choice(args) == TopChoice::Version,
        (args.contains("create"@) || args.contains("-c"@)) && !args.contains("help"@)
            && !args.contains("-h"@) && !args.contains("license"@) && !args.contains("-l"@)
            && !args.contains("version"@) && !args.contains("-v"@) ==> top_choice(args)
            == TopChoice::Create,
        !args.contains("help"@) && !args.contains("-h"@) && !args.contains("license"@)
            && !args.contains("-l"@) && !args.contains("version"@) && !args.contains("-v"@)
            && !args.contains("create"@) && !args.contains("-c"@) ==> top_choice(args)
            == TopChoice::Nothing,
{
    let reg = top_registrations();
    let st = top_state(args);
    lemma_top_registrations_distinct();
    assert(reg[0] == ("help"@, "-h"@));
    assert(reg[1] == ("license"@, "-l"@));
    assert(reg[2] == ("version"@, "-v"@));
    assert(reg[3] == ("create"@, "-c"@));
    if argrust_reports(st, "help"@) {
        lemma_reported_name_was_given(st, 0);
    }
    if argrust_reports(st, "license"@) {
        lemma_reported_name_was_given(st, 1);
    }
    if argrust_reports(st, "version"@) {
        lemma_reported_name_was_given(st, 2);
    }
    if argrust_reports(st, "create"@) {
        lemma_reported_name_was_given(st, 3);
    }
    if args.contains("license"@) || args.contains("-l"@) {
        law_given_registration_is_reported(args, reg, 1);
    }
    if args.contains("version"@) || args.contains("-v"@) {
        law_given_registration_is_reported(args, reg, 2);
    }
    if args.contains("create"@) || args.contains("-c"@) {
        law_given_registration_is_reported(args, reg, 3);
    }
}

/// After `create`: `init` (or `-i`) without `callable` (or `-cal`) asks
/// "did you mean"; `callable` without `init` on Linux makes a shell
/// callable; neither does nothing.
pub proof fn law_create_sub_options(args: Seq<Seq<char>>, platform: Platform)
    ensures
        (args.contains("init"@) || args.contains("-i"@)) && !args.contains("callable"@)
            && !args.contains("-cal"@) ==> create_choice(args, platform) == CreateChoice::DidYouMean,
        (args.contains("callable"@) || args.contains("-cal"@)) && !args.contains("init"@)
            && !args.contains("-i"@) && platform == Platform::Linux ==> create_choice(args, platform)
            == CreateChoice::ShellCallable,
        !args.contains("init"@) && !args.contains("-i"@) && !args.contains("callable"@)
            && !args.contains("-cal"@) ==> create_choice(args, platform) == CreateChoice::Nothing,
{
    let reg = create_registrations();
    let st = create_state(args);
    lemma_create_registrations_distinct();
    assert(reg[0] == ("callable"@, "-cal"@));
    assert(reg[1] == ("init"@, "-i"@));
    if argrust_reports(st, "callable"@) {
        lemma_reported_name_was_given(st, 0);
    }
    if argrust_reports(st, "init"@) {
        lemma_reported_name_was_given(st, 1);
    }
    if args.contains("callable"@) || args.contains("-cal"@) {
        law_given_registration_is_reported(args, reg, 0);
    }
    if args.contains("init"@) || args.contains("-i"@) {
        law_given_registration_is_reported(args, reg, 1);
    }
}

} // verus!
