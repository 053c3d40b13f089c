use vstd::prelude::*;
use crate::text::contains_string;

verus! {

/// The registered names that occur among the given arguments, in
/// registration order (with repetitions as registered).
pub open spec fn matched(registered: Seq<Seq<char>>, given: Seq<Seq<char>>) -> Seq<Seq<char>>
    decreases registered.len(),
{
    if registered.len() == 0 {
        Seq::empty()
    } else {
        let rest = matched(registered.drop_last(), given);
        if given.contains(registered.last()) {
            rest.push(registered.last())
        } else {
            rest
        }
    }
}

/// A name is reported by `analyze` exactly when it was registered and
/// also occurs among the given arguments.
pub proof fn law_matched_iff_registered_and_given(
    registered: Seq<Seq<char>>,
    given: Seq<Seq<char>>,
    name: Seq<char>,
)
    ensures
        matched(registered, given).contains(name) <==> (registered.contains(name)
            && given.contains(name)),
    decreases registered.len(),
{
    if registered.len() > 0 {
        let rest = registered.drop_last();
        law_matched_iff_registered_and_given(rest, given, name);
        assert(registered =~= rest.push(registered.last()));
        if registered.contains(name) && !rest.contains(name) {
            let k = choose|k: int| 0 <= k < registered.len() && registered[k] == name;
            if k < rest.len() {
                assert(rest[k] == name);
            }
        }
        if rest.contains(name) {
            let k = choose|k: int| 0 <= k < rest.len() && rest[k] == name;
            assert(registered[k] == name);
        }
        let m = matched(rest, given);
        if given.contains(registered.last()) {
            assert(m.push(registered.last())[m.len() as int] == registered.last());
            if m.contains(name) {
                let k = choose|k: int| 0 <= k < m.len() && m[k] == name;
                assert(m.push(registered.last())[k] == name);
            }
            if m.push(registered.last()).contains(name) && name != registered.last() {
                let k = choose|k: int| 0 <= k < m.len() + 1 && m.push(registered.last())[k] == name;
                assert(m[k] == name);
            }
        }
    }
}

/// A call that changes an analyser: registering a name, or analysing.
pub enum ArgumentsCall {
    Add(Seq<char>),
    Analyze,
}

/// What a call does to an analyser, as `add` and `analyze` state it.
pub open spec fn call_effect(before: Arguments, call: ArgumentsCall, after: Arguments) -> bool {
    &&& after.given() == before.given()
    &&& match call {
        ArgumentsCall::Add(name) => {
            &&& after.registered() == before.registered().push(name)
            &&& after.found() == before.found()
        },
        ArgumentsCall::Analyze => {
            &&& after.registered() == before.registered()
            &&& after.found() == before.found() + matched(before.registered(), before.given())
        },
    }
}

/// The given arguments, and so what `gotlen` and `fetch` report, stay as
/// they were over any sequence of registrations and analyses: `states[0]`
/// is an analyser, and each next state is what the next call leaves.
pub proof fn law_given_kept_over_calls(states: Seq<Arguments>, calls: Seq<ArgumentsCall>)
    requires
        states.len() == calls.len() + 1,
        forall|i: int|
            0 <= i < calls.len() ==> call_effect(#[trigger] states[i], calls[i], states[i + 1]),
    ensures
        forall|i: int| 0 <= i < states.len() ==> (#[trigger] states[i]).given() == states[0].given(),
    decreases calls.len(),
{
    if calls.len() > 0 {
        let n = calls.len() - 1;
        law_given_kept_over_calls(states.drop_last(), calls.drop_last());
        assert forall|i: int| 0 <= i < states.len() implies (#[trigger] states[i]).given()
            == states[0].given() by {
            if i < states.len() - 1 {
                assert(states.drop_last()[i] == states[i]);
            } else {
                assert(states.drop_last()[n] == states[n]);
                assert(call_effect(states[n], calls[n], states[n + 1]));
            }
        }
    }
}

/// A small argument analyser: it keeps the arguments it was given, the
/// names registered with `add`, and (in `arguments`) the registered names
/// that `analyze` found among the given arguments.
pub struct Arguments {
    gotarguments: Vec<String>,
    allargs: Vec<String>,
    pub arguments: Vec<String>,
}

impl Arguments {
    /// The arguments this analyser was built from.
    pub closed spec fn given(&self) -> Seq<Seq<char>> {
        self.gotarguments.deep_view()
    }

    /// The names registered with `add`, in order.
    pub closed spec fn registered(&self) -> Seq<Seq<char>> {
        self.allargs.deep_view()
    }

    /// The names found so far by `analyze`.
    pub closed spec fn found(&self) -> Seq<Seq<char>> {
        self.arguments.deep_view()
    }

    pub fn new(args: Vec<String>) -> (r: Self)
        ensures
            r.given() == args.deep_view(),
            r.registered() == Seq::<Seq<char>>::empty(),
            r.found() == Seq::<Seq<char>>::empty(),
    {
        let r = Arguments { gotarguments: args, allargs: Vec::new(), arguments: Vec::new() };
        assert(r.allargs.deep_view() =~= Seq::<Seq<char>>::empty());
        assert(r.arguments.deep_view() =~= Seq::<Seq<char>>::empty());
        r
    }

    /// Registers a name to look for.
    pub fn add(&mut self, argument: &str)
        ensures
            final(self).registered() == old(self).registered().push(argument@),
            final(self).given() == old(self).given(),
            final(self).found() == old(self).found(),
            call_effect(*old(self), ArgumentsCall::Add(argument@), *final(self)),
    {
        let ghost before = self.allargs.deep_view();
        self.allargs.push(String::from_str(argument));
        assert(self.allargs.deep_view() =~= before.push(argument@));
    }

    /// Appends to `arguments` every registered name that occurs among the
    /// given arguments, in registration order.
    pub fn analyze(&mut self)
        ensures
            final(self).found() == old(self).found() + matched(old(self).registered(), old(self).given()),
            final(self).given() == old(self).given(),
            final(self).registered() == old(self).registered(),
            call_effect(*old(self), ArgumentsCall::Analyze, *final(self)),
    {
        let ghost found0 = self.arguments.deep_view();
        let ghost reg = self.allargs.deep_view();
        let ghost got = self.gotarguments.deep_view();
        let n = self.allargs.len();
        let mut i: usize = 0;
        while i < n
            invariant
                n == self.allargs.len(),
                i <= n,
                self.allargs.deep_view() == reg,
                self.gotarguments.deep_view() == got,
                self.arguments.deep_view() == found0 + matched(reg.take(i as int), got),
            decreases n - i,
        {
            assert(reg.take(i + 1).drop_last() =~= reg.take(i as int));
            assert(reg.take(i + 1).last() == self.allargs[i as int]@);
            if contains_string(&self.gotarguments, &self.allargs[i]) {
                let ghost before = self.arguments.deep_view();
                let x = self.allargs[i].clone();
                self.arguments.push(x);
                assert(self.arguments.deep_view() =~= before.push(self.allargs[i as int]@));
                assert(self.arguments.deep_view() =~= found0 + matched(reg.take(i + 1), got));
            } else {
                assert(self.arguments.deep_view() =~= found0 + matched(reg.take(i + 1), got));
            }
            i = i + 1;
        }
        assert(reg.take(n as int) =~= reg);
    }

    /// The `ind`-th given argument, counting from 1.
    pub fn fetch(&self, ind: usize) -> (r: String)
        requires
            1 <= ind <= self.given().len(),
        ensures
            r@ == self.given()[ind - 1],
    {
        self.gotarguments[ind - 1].clone()
    }

    /// The names found so far by `analyze` (the `arguments` field).
    pub fn found_arguments(&self) -> (r: &Vec<String>)
        ensures
            r.deep_view() == self.found(),
    {
        &self.arguments
    }

    /// How many arguments were given.
    pub fn gotlen(&self) -> (r: usize)
        ensures
            r == self.given().len(),
    {
        self.gotarguments.len()
    }
}

} // verus!
