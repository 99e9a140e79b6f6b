//! Small text operations the services build their messages and checks from.

use vstd::prelude::*;
use vstd::string::*;

verus! {

/// `String::push`: appends one character.
#[verifier::external_body]
fn push_char(s: &mut String, c: char)
    ensures
        final(s)@ == old(s)@.push(c),
{
    s.push(c);
}

/// The characters of `s`, in order.
pub fn chars_of(s: &str) -> (res: Vec<char>)
    ensures
        res@ == s@,
{
    let mut out: Vec<char> = Vec::new();
    for c in iter: s.chars()
        invariant
            out@ == iter.seq().take(iter.index() as int),
    {
        out.push(c);
    }
    out
}

/// The text made of the characters `cs`.
pub fn string_of(cs: &Vec<char>) -> (res: String)
    ensures
        res@ == cs@,
{
    let mut out = String::new();
    let mut i: usize = 0;
    while i < cs.len()
        invariant
            i <= cs.len(),
            out@ == cs@.take(i as int),
        decreases cs.len() - i,
    {
        push_char(&mut out, cs[i]);
        i = i + 1;
        assert(cs@.take(i as int) =~= cs@.take(i - 1).push(cs@[i - 1]));
    }
    assert(cs@.take(cs.len() as int) =~= cs@);
    out
}

/// Equality of two texts.
pub fn text_eq(a: &str, b: &str) -> (res: bool)
    ensures
        res == (a@ == b@),
{
    let x = a.to_owned();
    let y = b.to_owned();
    x == y
}

/// `a` followed by `b`.
pub fn concat2(a: &str, b: &str) -> (res: String)
    ensures
        res@ == a@ + b@,
{
    let mut out = a.to_owned();
    out.append(b);
    out
}

/// `a`, `b` and `c` one after the other.
pub fn concat3(a: &str, b: &str, c: &str) -> (res: String)
    ensures
        res@ == a@ + b@ + c@,
{
    let mut out = a.to_owned();
    out.append(b);
    out.append(c);
    out
}

/// `s` with every occurrence of `pat`, taken left to right without overlap, removed.
pub open spec fn remove_all(s: Seq<char>, pat: Seq<char>) -> Seq<char>
    decreases s.len(),
{
    if s.len() == 0 {
        s
    } else if pat.len() > 0 && pat.len() <= s.len() && s.take(pat.len() as int) == pat {
        remove_all(s.skip(pat.len() as int), pat)
    } else {
        seq![s[0]] + remove_all(s.skip(1), pat)
    }
}

/// The prefix an authorization header carries before its token.
pub open spec fn bearer_prefix() -> Seq<char> {
    seq!['B', 'e', 'a', 'r', 'e', 'r', ' ']
}

/// Whether the characters of `v` from `i` on begin with the bearer prefix.
fn starts_with_bearer_at(v: &Vec<char>, i: usize) -> (res: bool)
    requires
        i <= v.len(),
    ensures
        res == (bearer_prefix().len() <= v@.skip(i as int).len() && v@.skip(i as int).take(
            bearer_prefix().len() as int,
        ) == bearer_prefix()),
{
    let n = v.len();
    if n - i < 7 {
        return false;
    }
    let r = v[i] == 'B' && v[i + 1] == 'e' && v[i + 2] == 'a' && v[i + 3] == 'r' && v[i + 4] == 'e'
        && v[i + 5] == 'r' && v[i + 6] == ' ';
    assert(r ==> v@.skip(i as int).take(7) =~= bearer_prefix());
    assert(v@.skip(i as int).take(7) == bearer_prefix() ==> {
        &&& v@.skip(i as int).take(7)[0] == 'B'
        &&& v@.skip(i as int).take(7)[6] == ' '
    });
    r
}

/// The token of an authorization header: the header text with every
/// `"Bearer "` in it removed, as `str::replace("Bearer ", "")` does.
pub fn strip_bearer(header: &str) -> (res: String)
    ensures
        res@ == remove_all(header@, bearer_prefix()),
{
    let v = chars_of(header);
    let mut out: Vec<char> = Vec::new();
    let mut i: usize = 0;
    assert(v@.skip(0) =~= v@);
    assert(out@ + remove_all(v@, bearer_prefix()) =~= remove_all(v@, bearer_prefix()));
    while i < v.len()
        invariant
            i <= v.len(),
            v@ == header@,
            out@ + remove_all(v@.skip(i as int), bearer_prefix()) == remove_all(v@, bearer_prefix()),
        decreases v.len() - i,
    {
        let ghost rest = v@.skip(i as int);
        if starts_with_bearer_at(&v, i) {
            assert(rest.skip(7) =~= v@.skip(i + 7));
            i = i + 7;
        } else {
            assert(rest.skip(1) =~= v@.skip(i + 1));
            assert(rest[0] == v@[i as int]);
            let ghost before = out@;
            out.push(v[i]);
            assert(out@ + remove_all(v@.skip(i + 1), bearer_prefix()) =~= before + (seq![rest[0]]
                + remove_all(rest.skip(1), bearer_prefix())));
            i = i + 1;
        }
    }
    assert(v@.skip(i as int) =~= Seq::<char>::empty());
    assert(out@ + Seq::<char>::empty() =~= out@);
    string_of(&out)
}

/// Text with no space in it is left as it is by the removal.
pub proof fn lemma_remove_all_spaceless(s: Seq<char>)
    requires
        forall|i: int| 0 <= i < s.len() ==> s[i] != ' ',
    ensures
        remove_all(s, bearer_prefix()) == s,
    decreases s.len(),
{
    if s.len() > 0 {
        if bearer_prefix().len() <= s.len() && s.take(7) == bearer_prefix() {
            assert(s.take(7)[6] == s[6]);
        }
        lemma_remove_all_spaceless(s.skip(1));
        assert(seq![s[0]] + s.skip(1) =~= s);
    }
}

/// Removing the bearer prefix from `"Bearer "` followed by a token without
/// spaces gives the token back.
pub proof fn lemma_strip_bearer_token(token: Seq<char>)
    requires
        forall|i: int| 0 <= i < token.len() ==> token[i] != ' ',
    ensures
        remove_all(bearer_prefix() + token, bearer_prefix()) == token,
{
    let s = bearer_prefix() + token;
    assert(s.take(7) =~= bearer_prefix());
    assert(s.skip(7) =~= token);
    lemma_remove_all_spaceless(token);
}

} // verus!
