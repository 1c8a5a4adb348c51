//! Splitting, joining and composing `;`-separated path lists.

use vstd::prelude::*;
use crate::registry::{textual, Error, Value};

verus! {

/// The separator of a path list.
pub open spec fn sep() -> char {
    ';'
}

/// The segments of `s` between its separators, left to right; the empty
/// string has one empty segment.
pub open spec fn split_segments(s: Seq<char>) -> Seq<Seq<char>>
    decreases s.len(),
{
    if s.len() == 0 {
        seq![Seq::<char>::empty()]
    } else {
        let rest = split_segments(s.drop_last());
        if s.last() == sep() {
            rest.push(Seq::<char>::empty())
        } else {
            rest.update(rest.len() - 1, rest.last().push(s.last()))
        }
    }
}

/// The segments of `parts`, in order, with one separator between
/// neighbours.
pub open spec fn join_segments(parts: Seq<Seq<char>>) -> Seq<char>
    decreases parts.len(),
{
    if parts.len() == 0 {
        Seq::<char>::empty()
    } else if parts.len() == 1 {
        parts[0]
    } else {
        join_segments(parts.drop_last()) + seq![sep()] + parts.last()
    }
}

/// The views of a list of strings.
pub open spec fn views(v: Seq<String>) -> Seq<Seq<char>> {
    v.map_values(|p: String| p@)
}

/// A split has at least one segment.
pub proof fn lemma_split_nonempty(s: Seq<char>)
    ensures
        split_segments(s).len() >= 1,
    decreases s.len(),
{
    if s.len() > 0 {
        lemma_split_nonempty(s.drop_last());
    }
}

/// Relies on `String::push`: appends one character.
#[verifier::external_body]
fn push_char(s: &mut String, c: char)
    ensures
        final(s)@ == old(s)@.push(c),
{
    s.push(c)
}

/// The segments of `s` between its `;` separators, in order; empty segments
/// are kept, and the empty string gives one empty segment.
pub fn split_path(s: &str) -> (r: Vec<String>)
    ensures
        views(r@) == split_segments(s@),
{
    let mut parts: Vec<String> = Vec::new();
    let mut cur = String::new();
    let ghost mut done: Seq<char> = Seq::empty();
    for c in it: s.chars()
        invariant
            it.seq() == s@,
            done == s@.take(it.index() as int),
            views(parts@).push(cur@) == split_segments(done),
    {
        proof {
            lemma_split_nonempty(done);
        }
        let ghost prev = done;
        proof {
            done = done.push(c);
            assert(done.drop_last() == prev);
        }
        if c == ';' {
            let ghost before = parts@;
            let finished = cur;
            parts.push(finished);
            cur = String::new();
            assert(views(parts@) =~= views(before).push(finished@));
        } else {
            push_char(&mut cur, c);
        }
        assert(views(parts@).push(cur@) =~= split_segments(done));
    }
    assert(done =~= s@);
    parts.push(cur);
    assert(views(parts@) =~= split_segments(s@));
    parts
}

/// The segments of `parts` in order, with one `;` between neighbours.
pub fn join_path(parts: &Vec<String>) -> (r: String)
    ensures
        r@ == join_segments(views(parts@)),
{
    proof {
        reveal_strlit(";");
    }
    let mut r = String::new();
    for i in 0..parts.len()
        invariant
            r@ == join_segments(views(parts@.take(i as int))),
    {
        let ghost before = r@;
        if i > 0 {
            r.append(";");
        }
        r.append(parts[i].as_str());
        proof {
            let t = views(parts@.take(i + 1));
            assert(t.drop_last() =~= views(parts@.take(i as int)));
            assert(t.last() == parts@[i as int]@);
            if i == 0 {
                assert(views(parts@.take(0)) =~= Seq::<Seq<char>>::empty());
                assert(r@ =~= join_segments(t));
            } else {
                reveal_strlit(";");
                assert(";"@ =~= seq![sep()]);
                assert(join_segments(t) == join_segments(t.drop_last()) + seq![sep()] + t.last());
                assert(r@ =~= join_segments(t));
            }
        }
    }
    assert(parts@.take(parts@.len() as int) =~= parts@);
    r
}

/// Joining the segments of a split gives back the string.
pub proof fn lemma_join_split(s: Seq<char>)
    ensures
        join_segments(split_segments(s)) == s,
    decreases s.len(),
{
    if s.len() > 0 {
        let p = s.drop_last();
        assert(s =~= p.push(s.last()));
        let rest = split_segments(p);
        lemma_join_split(p);
        lemma_split_nonempty(p);
        if s.last() == sep() {
            let t = rest.push(Seq::<char>::empty());
            assert(t.drop_last() =~= rest);
            assert(join_segments(t) =~= s);
        } else {
            let x = rest.last().push(s.last());
            let t = rest.update(rest.len() - 1, x);
            if rest.len() == 1 {
                assert(join_segments(t) =~= s);
            } else {
                assert(t.drop_last() =~= rest.drop_last());
                assert(join_segments(rest) == join_segments(rest.drop_last()) + seq![sep()]
                    + rest.last());
                assert(join_segments(t) == join_segments(rest.drop_last()) + seq![sep()] + x);
                assert(join_segments(t) =~= s);
            }
        }
    }
}

/// Splitting a path list on `;` and joining the segments with `;` gives
/// back the same string, for every string.
pub proof fn split_then_join_is_identity(s: Seq<char>)
    ensures
        join_segments(split_segments(s)) == s,
{
    lemma_join_split(s);
}

/// Whether `c` is white space in the sense of Unicode's `White_Space`
/// property.
pub open spec fn is_white(c: char) -> bool {
    let n = c as u32;
    (0x9 <= n <= 0xd) || n == 0x20 || n == 0x85 || n == 0xa0 || n == 0x1680 || (0x2000 <= n
        <= 0x200a) || n == 0x2028 || n == 0x2029 || n == 0x202f || n == 0x205f || n == 0x3000
}

/// Whether `s` is empty once trimmed: every character is white space.
pub open spec fn is_blank(s: Seq<char>) -> bool {
    forall|i: int| 0 <= i < s.len() ==> is_white(s[i])
}

/// The user path, then the system path, with one `;` between them when
/// both have content; a blank source is left out.
pub open spec fn compose_paths(user: Seq<char>, system: Seq<char>) -> Seq<char> {
    if is_blank(user) {
        if is_blank(system) {
            Seq::<char>::empty()
        } else {
            system
        }
    } else if is_blank(system) {
        user
    } else {
        user + seq![sep()] + system
    }
}

fn is_white_char(c: char) -> (r: bool)
    ensures
        r == is_white(c),
{
    let n = c as u32;
    (0x9 <= n && n <= 0xd) || n == 0x20 || n == 0x85 || n == 0xa0 || n == 0x1680 || (0x2000 <= n
        && n <= 0x200a) || n == 0x2028 || n == 0x2029 || n == 0x202f || n == 0x205f || n == 0x3000
}

/// Whether `s` holds nothing but white space.
pub fn is_blank_str(s: &str) -> (r: bool)
    ensures
        r == is_blank(s@),
{
    let mut blank = true;
    for c in it: s.chars()
        invariant
            it.seq() == s@,
            blank == (forall|j: int| 0 <= j < it.index() ==> is_white(s@[j])),
    {
        blank = blank && is_white_char(c);
    }
    blank
}

/// The `PATH` made of the user's path and the system's path: user entries
/// first, one `;` between the two, and a blank source left out entirely;
/// two blank sources give the empty string.
pub fn compose(user: &str, system: &str) -> (r: String)
    ensures
        r@ == compose_paths(user@, system@),
{
    proof {
        reveal_strlit(";");
    }
    let user_blank = is_blank_str(user);
    let system_blank = is_blank_str(system);
    if user_blank {
        if system_blank {
            String::new()
        } else {
            system.to_owned()
        }
    } else if system_blank {
        user.to_owned()
    } else {
        let mut r = user.to_owned();
        r.append(";");
        r.append(system);
        r
    }
}

/// The path text that a registry value contributes: for a string value, its
/// expansion where expansion gave one and its literal text otherwise;
/// nothing for a value of any other type.
pub open spec fn source_text(v: Value, expanded: Option<String>) -> Seq<char> {
    match textual(v.var_type, v.var_data@) {
        Some(t) => match expanded {
            Some(x) => x@,
            None => t,
        },
        None => Seq::<char>::empty(),
    }
}

/// The path text of `value`. `expanded` is what expanding the value's
/// textual form gave (`None`: not expandable), and replaces that form
/// whole; a value with no textual form contributes nothing.
pub fn source_path(value: &Value, expanded: Option<String>) -> (r: String)
    ensures
        r@ == source_text(*value, expanded),
{
    match value.to_string() {
        Some(text) => match expanded {
            Some(x) => x,
            None => text,
        },
        None => String::new(),
    }
}

/// The composed path for the two sources, or the first failure, the user's
/// source taken before the system's.
pub open spec fn composed_result(
    user: Result<Value, Error>,
    user_expanded: Option<String>,
    system: Result<Value, Error>,
    system_expanded: Option<String>,
) -> Result<Seq<char>, Error> {
    match user {
        Err(e) => Err(e),
        Ok(u) => match system {
            Err(e) => Err(e),
            Ok(s) => Ok(
                compose_paths(source_text(u, user_expanded), source_text(s, system_expanded)),
            ),
        },
    }
}

/// The `PATH` defined by the registry. `user` and `system` are the outcomes
/// of reading the `Path` values of the user's and of the machine's
/// environment keys; `user_expanded` and `system_expanded` are what
/// expanding their textual forms gave. A failure to read either is
/// returned; otherwise the two path texts are composed, user first.
pub fn read_path_from_registry(
    user: Result<Value, Error>,
    user_expanded: Option<String>,
    system: Result<Value, Error>,
    system_expanded: Option<String>,
) -> (r: Result<String, Error>)
    ensures
        match (r, composed_result(user, user_expanded, system, system_expanded)) {
            (Ok(p), Ok(q)) => p@ == q,
            (Err(e), Err(f)) => e == f,
            _ => false,
        },
{
    let u = match user {
        Ok(v) => v,
        Err(e) => return Err(e),
    };
    let s = match system {
        Ok(v) => v,
        Err(e) => return Err(e),
    };
    let user_path = source_path(&u, user_expanded);
    let system_path = source_path(&s, system_expanded);
    Ok(compose(user_path.as_str(), system_path.as_str()))
}

/// What a source contributes when failures count as an absent source.
pub open spec fn lenient_text(v: Result<Value, Error>, expanded: Option<String>) -> Seq<char> {
    match v {
        Ok(x) => source_text(x, expanded),
        Err(_) => Seq::<char>::empty(),
    }
}

/// Like `read_path_from_registry`, but a source that could not be read (a
/// missing key, a missing value) counts as empty instead of failing.
pub fn read_path_best_effort(
    user: Result<Value, Error>,
    user_expanded: Option<String>,
    system: Result<Value, Error>,
    system_expanded: Option<String>,
) -> (r: String)
    ensures
        r@ == compose_paths(
            lenient_text(user, user_expanded),
            lenient_text(system, system_expanded),
        ),
{
    let user_path = match user {
        Ok(v) => source_path(&v, user_expanded),
        Err(_) => String::new(),
    };
    let system_path = match system {
        Ok(v) => source_path(&v, system_expanded),
        Err(_) => String::new(),
    };
    compose(user_path.as_str(), system_path.as_str())
}

/// Composition keeps the user's entries before the system's and adds a
/// separator only between two non-blank sources: the result is
/// `user ; system` when both have content, the one with content when the
/// other is blank, and empty when both are blank. A `;` at the start or at
/// the end of the result was at the start or at the end of a source.
pub proof fn compose_orders_and_separates(user: Seq<char>, system: Seq<char>)
    ensures
        !is_blank(user) && !is_blank(system) ==> compose_paths(user, system) == user + seq![
            sep(),
        ] + system,
        !is_blank(user) && is_blank(system) ==> compose_paths(user, system) == user,
        is_blank(user) && !is_blank(system) ==> compose_paths(user, system) == system,
        is_blank(user) && is_blank(system) ==> compose_paths(user, system).len() == 0,
        ({
            let r = compose_paths(user, system);
            r.len() > 0 && r[0] == sep() ==> (user.len() > 0 && user[0] == sep()) || (system.len()
                > 0 && system[0] == sep())
        }),
        ({
            let r = compose_paths(user, system);
            r.len() > 0 && r.last() == sep() ==> (user.len() > 0 && user.last() == sep()) || (
            system.len() > 0 && system.last() == sep())
        }),
{
    let r = compose_paths(user, system);
    if !is_blank(user) && !is_blank(system) {
        assert(r[0] == user[0]);
        assert(r.last() == system.last());
    }
}

/// Whether two outcomes of reading a source hold the same contents: the
/// same failure, or values with the same tag and the same bytes.
pub open spec fn same_source(a: Result<Value, Error>, b: Result<Value, Error>) -> bool {
    match (a, b) {
        (Ok(x), Ok(y)) => x.var_type == y.var_type && x.var_data@ == y.var_data@,
        (Err(e), Err(f)) => e == f,
        _ => false,
    }
}

/// Whether two expansion outcomes give the same text.
pub open spec fn same_expansion(a: Option<String>, b: Option<String>) -> bool {
    match (a, b) {
        (Some(x), Some(y)) => x@ == y@,
        (None, None) => true,
        _ => false,
    }
}

/// Composing again from unchanged registry contents and unchanged
/// expansions gives the same result, byte for byte.
pub proof fn compose_is_reproducible(
    user: Result<Value, Error>,
    user_expanded: Option<String>,
    system: Result<Value, Error>,
    system_expanded: Option<String>,
    user_again: Result<Value, Error>,
    user_expanded_again: Option<String>,
    system_again: Result<Value, Error>,
    system_expanded_again: Option<String>,
)
    requires
        same_source(user, user_again),
        same_expansion(user_expanded, user_expanded_again),
        same_source(system, system_again),
        same_expansion(system_expanded, system_expanded_again),
    ensures
        composed_result(user, user_expanded, system, system_expanded) == composed_result(
            user_again,
            user_expanded_again,
            system_again,
            system_expanded_again,
        ),
{
}

} // verus!
