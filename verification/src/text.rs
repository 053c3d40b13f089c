use vstd::prelude::*;

verus! {

/// Appends one character to a `String` (std `String::push`).
/// Claimed: the string afterwards is the old one with `c` added at the end.
#[verifier::external_body]
pub(crate) fn push_char(s: &mut String, c: char)
    ensures
        final(s)@ == old(s)@.push(c),
{
    s.push(c);
}

/// `s` with every occurrence of the character `from` replaced by the text `to`.
pub open spec fn replace_char(s: Seq<char>, from: char, to: Seq<char>) -> Seq<char>
    decreases s.len(),
{
    if s.len() == 0 {
        Seq::empty()
    } else {
        replace_char(s.drop_last(), from, to) + (if s.last() == from {
            to
        } else {
            seq![s.last()]
        })
    }
}

/// Replaces every `from` character of `s` by the text `to`.
pub fn replace_char_with(s: &str, from: char, to: &str) -> (r: String)
    ensures
        r@ == replace_char(s@, from, to@),
{
    broadcast use vstd::string::group_string_axioms;
    let mut r = String::new();
    let n = s.unicode_len();
    let mut i: usize = 0;
    while i < n
        invariant
            n == s@.len(),
            i <= n,
            r@ == replace_char(s@.take(i as int), from, to@),
        decreases n - i,
    {
        let c = s.get_char(i);
        assert(s@.take(i + 1).drop_last() =~= s@.take(i as int));
        if c == from {
            r.append(to);
        } else {
            push_char(&mut r, c);
        }
        i = i + 1;
    }
    assert(s@.take(n as int) =~= s@);
    r
}

/// Whether `v` holds a string equal to `s`.
pub fn contains_string(v: &Vec<String>, s: &String) -> (r: bool)
    ensures
        r == v.deep_view().contains(s@),
{
    let n = v.len();
    let mut i: usize = 0;
    while i < n
        invariant
            n == v.len(),
            i <= n,
            forall|j: int| 0 <= j < i ==> v.deep_view()[j] != s@,
        decreases n - i,
    {
        if v[i] == *s {
            assert(v.deep_view()[i as int] == s@);
            return true;
        }
        i = i + 1;
    }
    false
}

/// After replacing a character by a text that does not hold it, the
/// character no longer occurs.
pub proof fn law_replace_char_removes(s: Seq<char>, from: char, to: Seq<char>)
    requires
        !to.contains(from),
    ensures
        !replace_char(s, from, to).contains(from),
    decreases s.len(),
{
    if s.len() > 0 {
        law_replace_char_removes(s.drop_last(), from, to);
        let head = replace_char(s.drop_last(), from, to);
        let tail = if s.last() == from {
            to
        } else {
            seq![s.last()]
        };
        if (head + tail).contains(from) {
            let k = choose|k: int| 0 <= k < (head + tail).len() && (head + tail)[k] == from;
            if k < head.len() {
                assert(head[k] == from);
            } else {
                assert(tail[k - head.len()] == from);
            }
        }
    }
}

/// Replacing a character by a single character keeps the length and
/// changes exactly the positions that held it.
pub proof fn law_replace_char_by_char(s: Seq<char>, from: char, to: char)
    ensures
        replace_char(s, from, seq![to]).len() == s.len(),
        forall|i: int|
            0 <= i < s.len() ==> #[trigger] replace_char(s, from, seq![to])[i] == if s[i]
                == from {
                to
            } else {
                s[i]
            },
    decreases s.len(),
{
    if s.len() > 0 {
        law_replace_char_by_char(s.drop_last(), from, to);
        let r = replace_char(s, from, seq![to]);
        assert forall|i: int| 0 <= i < s.len() implies #[trigger] r[i] == if s[i] == from {
            to
        } else {
            s[i]
        } by {
            if i < s.len() - 1 {
                assert(s.drop_last()[i] == s[i]);
                assert(r[i] == replace_char(s.drop_last(), from, seq![to])[i]);
            }
        }
    }
}

} // verus!
