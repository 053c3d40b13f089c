use vstd::prelude::*;
use argrust::Arguments as ArgParser;

verus! {

#[verifier::external_type_specification]
#[verifier::external_body]
pub struct ExArgrustArguments(ArgParser);

/// What an `ArgParser` holds: the arguments it was given, the
/// registered (name, short form) pairs in order, and the names found by
/// its last analysis.
pub uninterp spec fn argrust_state(a: ArgParser) -> (
    Seq<Seq<char>>,
    Seq<(Seq<char>, Seq<char>)>,
    Seq<Seq<char>>,
);

/// How many values `argrust`'s `fetch` collects after a flag.
#[derive(Clone, Copy)]
pub enum FetchMode {
    /// Everything after the flag.
    TillLast,
    /// Everything after the flag up to the next reported flag.
    TillNext,
}

/// What `argrust`'s `fetch` returns for a state, a flag and a mode.
pub uninterp spec fn argrust_fetched(
    state: (Seq<Seq<char>>, Seq<(Seq<char>, Seq<char>)>, Seq<Seq<char>>),
    arg: Seq<char>,
    mode: FetchMode,
) -> Seq<Seq<char>>;

/// The names an analysis finds: each registered name whose name or short
/// form occurs among the given arguments, in registration order.
pub open spec fn argrust_found(
    given: Seq<Seq<char>>,
    registered: Seq<(Seq<char>, Seq<char>)>,
) -> Seq<Seq<char>>
    decreases registered.len(),
{
    if registered.len() == 0 {
        Seq::empty()
    } else {
        let rest = argrust_found(given, registered.drop_last());
        let last = registered.last();
        if given.contains(last.0) || given.contains(last.1) {
            rest.push(last.0)
        } else {
            rest
        }
    }
}

/// Whether a state reports `arg` as present: some name was found, and
/// either `arg` itself was found, or `arg` is the name or short form of a
/// registration whose name or short form was found.
pub open spec fn argrust_reports(
    state: (Seq<Seq<char>>, Seq<(Seq<char>, Seq<char>)>, Seq<Seq<char>>),
    arg: Seq<char>,
) -> bool {
    let registered = state.1;
    let found = state.2;
    &&& found.len() != 0
    &&& (found.contains(arg) || exists|x: int|
        0 <= x < registered.len() && (found.contains(registered[x].1) || found.contains(
            registered[x].0,
        )) && (registered[x].0 == arg || registered[x].1 == arg))
}

/// The states on which `fetch` reads only arguments that exist: some
/// argument and some registration are there, and `arg` is given, or is a
/// registered name whose short form is given.
pub open spec fn argrust_fetch_ready(
    state: (Seq<Seq<char>>, Seq<(Seq<char>, Seq<char>)>, Seq<Seq<char>>),
    arg: Seq<char>,
) -> bool {
    let given = state.0;
    let registered = state.1;
    &&& given.len() > 0
    &&& registered.len() > 0
    &&& (given.contains(arg) || exists|x: int|
        0 <= x < registered.len() && registered[x].0 == arg && given.contains(registered[x].1))
}

/// `ArgParser::new`: keeps the given arguments, with nothing
/// registered and nothing found.
#[verifier::external_body]
pub(crate) fn argrust_new(args: Vec<String>) -> (r: ArgParser)
    ensures
        argrust_state(r) == (args.deep_view(), Seq::<(Seq<char>, Seq<char>)>::empty(), Seq::<
            Seq<char>,
        >::empty()),
{
    ArgParser::new(args)
}

/// `ArgParser::add` with a description built by
/// `ArgumentDescription::new().name(..).description(..).short(..)`:
/// appends the (name, short form) pair to the registrations.
#[verifier::external_body]
pub(crate) fn argrust_add(
    a: &mut ArgParser,
    arg: &str,
    name: &str,
    description: &str,
    short: &str,
)
    ensures
        argrust_state(*final(a)) == (
            argrust_state(*old(a)).0,
            argrust_state(*old(a)).1.push((arg@, short@)),
            argrust_state(*old(a)).2,
        ),
{
    a.add(
        arg,
        argrust::ArgumentDescription::new().name(name).description(description).short(short),
    )
}

/// `ArgParser::analyse`: replaces the found names by those the
/// given arguments show (`argrust_found`). It reads past the
/// registrations when there are none, hence the `requires`.
#[verifier::external_body]
pub(crate) fn argrust_analyse(a: &mut ArgParser)
    requires
        argrust_state(*old(a)).1.len() > 0,
    ensures
        argrust_state(*final(a)) == (
            argrust_state(*old(a)).0,
            argrust_state(*old(a)).1,
            argrust_found(argrust_state(*old(a)).0, argrust_state(*old(a)).1),
        ),
{
    a.analyse()
}

/// `ArgParser::ifarg`: whether `arg` is reported present
/// (`argrust_reports`); the registrations, arguments and found names stay
/// as they were (it only records the query in a list nothing here reads).
#[verifier::external_body]
pub(crate) fn argrust_ifarg(a: &mut ArgParser, arg: &str) -> (r: bool)
    requires
        argrust_state(*old(a)).1.len() > 0,
    ensures
        r == argrust_reports(argrust_state(*old(a)), arg@),
        argrust_state(*final(a)) == argrust_state(*old(a)),
{
    a.ifarg(arg)
}

/// `ArgParser::ifarg_force`: the same answer as `ifarg`.
#[verifier::external_body]
pub(crate) fn argrust_ifarg_force(a: &mut ArgParser, arg: &str) -> (r: bool)
    requires
        argrust_state(*old(a)).1.len() > 0,
    ensures
        r == argrust_reports(argrust_state(*old(a)), arg@),
        argrust_state(*final(a)) == argrust_state(*old(a)),
{
    a.ifarg_force(arg)
}

/// `ArgParser::fetch(..).get()`: the values after a flag,
/// named `argrust_fetched` (a function of the state, the flag and the
/// mode); the state stays as it was.
#[verifier::external_body]
pub(crate) fn argrust_fetch(a: &mut ArgParser, arg: &str, mode: FetchMode) -> (r: Vec<
    String,
>)
    requires
        argrust_fetch_ready(argrust_state(*old(a)), arg@),
    ensures
        r.deep_view() == argrust_fetched(argrust_state(*old(a)), arg@, mode),
        argrust_state(*final(a)) == argrust_state(*old(a)),
{
    let kind = match mode {
        FetchMode::TillLast => argrust::FetchTypes::TillLast,
        FetchMode::TillNext => argrust::FetchTypes::TillNext,
    };
    a.fetch(arg, kind).get()
}

/// No registered name equals a short form, and no two registrations
/// share a name or a short form.
pub open spec fn distinct_registrations(registered: Seq<(Seq<char>, Seq<char>)>) -> bool {
    forall|i: int, j: int|
        0 <= i < registered.len() && 0 <= j < registered.len() ==> {
            &&& registered[i].0 != registered[j].1
            &&& i != j ==> registered[i].0 != registered[j].0 && registered[i].1
                != registered[j].1
        }
}

/// A found name is a registered name whose name or short form was given.
proof fn lemma_found_origin(
    given: Seq<Seq<char>>,
    registered: Seq<(Seq<char>, Seq<char>)>,
    t: Seq<char>,
)
    requires
        argrust_found(given, registered).contains(t),
    ensures
        exists|j: int|
            0 <= j < registered.len() && registered[j].0 == t && (given.contains(
                registered[j].0,
            ) || given.contains(registered[j].1)),
    decreases registered.len(),
{
    let rest = registered.drop_last();
    let f = argrust_found(given, rest);
    let last = registered.last();
    if f.contains(t) {
        lemma_found_origin(given, rest, t);
        let j = choose|j: int|
            0 <= j < rest.len() && rest[j].0 == t && (given.contains(rest[j].0) || given.contains(
                rest[j].1,
            ));
        assert(registered[j] == rest[j]);
    } else {
        let k = choose|k: int| 0 <= k < argrust_found(given, registered).len() && argrust_found(given, registered)[k] == t;
        assert(k == f.len());
        assert(registered[registered.len() - 1] == last);
    }
}

/// When the found names are those an analysis gives and the registrations
/// are distinct, a registered name that is reported present can be
/// fetched.
pub proof fn lemma_reported_name_is_fetchable(
    state: (Seq<Seq<char>>, Seq<(Seq<char>, Seq<char>)>, Seq<Seq<char>>),
    x0: int,
)
    requires
        state.2 == argrust_found(state.0, state.1),
        distinct_registrations(state.1),
        0 <= x0 < state.1.len(),
        argrust_reports(state, state.1[x0].0),
    ensures
        argrust_fetch_ready(state, state.1[x0].0),
{
    let given = state.0;
    let reg = state.1;
    let arg = reg[x0].0;
    if state.2.contains(arg) {
        lemma_found_origin(given, reg, arg);
        let j = choose|j: int|
            0 <= j < reg.len() && reg[j].0 == arg && (given.contains(reg[j].0) || given.contains(
                reg[j].1,
            ));
        assert(given.len() > 0);
    } else {
        let x = choose|x: int|
            0 <= x < reg.len() && (state.2.contains(reg[x].1) || state.2.contains(reg[x].0)) && (
            reg[x].0 == arg || reg[x].1 == arg);
        assert(reg[x0].0 != reg[x].1);
        assert(x == x0);
        if state.2.contains(reg[x].1) {
            lemma_found_origin(given, reg, reg[x].1);
            let j = choose|j: int|
                0 <= j < reg.len() && reg[j].0 == reg[x].1 && (given.contains(reg[j].0)
                    || given.contains(reg[j].1));
            assert(reg[j].0 != reg[x].1);
        } else {
            lemma_found_origin(given, reg, reg[x].0);
            let j = choose|j: int|
                0 <= j < reg.len() && reg[j].0 == reg[x].0 && (given.contains(reg[j].0)
                    || given.contains(reg[j].1));
            assert(j == x);
            assert(given.len() > 0);
        }
    }
}

/// A registration whose name or short form was given is found by the
/// analysis, and both its name and its short form are then reported.
pub proof fn law_given_registration_is_reported(
    given: Seq<Seq<char>>,
    registered: Seq<(Seq<char>, Seq<char>)>,
    j: int,
)
    requires
        0 <= j < registered.len(),
        given.contains(registered[j].0) || given.contains(registered[j].1),
    ensures
        argrust_found(given, registered).contains(registered[j].0),
        argrust_reports((given, registered, argrust_found(given, registered)), registered[j].0),
        argrust_reports((given, registered, argrust_found(given, registered)), registered[j].1),
    decreases registered.len(),
{
    let rest = registered.drop_last();
    let f = argrust_found(given, rest);
    let found = argrust_found(given, registered);
    if j < rest.len() {
        assert(rest[j] == registered[j]);
        law_given_registration_is_reported(given, rest, j);
        let k = choose|k: int| 0 <= k < f.len() && f[k] == registered[j].0;
        if given.contains(registered.last().0) || given.contains(registered.last().1) {
            assert(f.push(registered.last().0)[k] == registered[j].0);
        }
    } else {
        assert(f.push(registered.last().0)[f.len() as int] == registered.last().0);
    }
    assert(found.contains(registered[j].0));
    assert(found.len() != 0);
    let st = (given, registered, found);
    assert(exists|x: int|
        0 <= x < st.1.len() && (st.2.contains(st.1[x].1) || st.2.contains(st.1[x].0)) && (
        st.1[x].0 == registered[j].1 || st.1[x].1 == registered[j].1)) by {
        assert(st.1[j] == registered[j]);
        assert(st.2.contains(st.1[j].0));
    }
}

/// With distinct registrations, a registered name is reported only when
/// its name or its short form was given.
pub proof fn lemma_reported_name_was_given(
    state: (Seq<Seq<char>>, Seq<(Seq<char>, Seq<char>)>, Seq<Seq<char>>),
    x0: int,
)
    requires
        state.2 == argrust_found(state.0, state.1),
        distinct_registrations(state.1),
        0 <= x0 < state.1.len(),
        argrust_reports(state, state.1[x0].0),
    ensures
        state.0.contains(state.1[x0].0) || state.0.contains(state.1[x0].1),
{
    lemma_reported_name_is_fetchable(state, x0);
    let reg = state.1;
    if !state.0.contains(reg[x0].0) {
        let x = choose|x: int|
            0 <= x < reg.len() && reg[x].0 == reg[x0].0 && state.0.contains(reg[x].1);
        assert(x == x0);
    }
}

} // verus!
