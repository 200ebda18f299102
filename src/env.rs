//! Environment variables of a task: `KEY=VALUE` assignments, `.env` files,
//! and the precedence between them.
use vstd::prelude::*;
use crate::error::{ErrorView, HyperVError};
use crate::text::{split_lines, lines_of};

verus! {

/// Environment variables as ordered `(name, value)` pairs with unique names.
pub type EnvVars = Vec<(String, String)>;

/// The character view of a list of pairs.
pub open spec fn env_view(e: Seq<(String, String)>) -> Seq<(Seq<char>, Seq<char>)> {
    e.map_values(|p: (String, String)| (p.0@, p.1@))
}

/// No name occurs twice.
pub open spec fn keys_unique(e: Seq<(Seq<char>, Seq<char>)>) -> bool {
    forall|i: int, j: int| 0 <= i < j < e.len() ==> e[i].0 != e[j].0
}

/// Some pair has the name `k`.
pub open spec fn has_key(e: Seq<(Seq<char>, Seq<char>)>, k: Seq<char>) -> bool {
    exists|i: int| 0 <= i < e.len() && e[i].0 == k
}

/// `e` with `k` bound to `v`: the pair with that name is replaced in place,
/// or appended when there is none.
pub open spec fn env_set(e: Seq<(Seq<char>, Seq<char>)>, k: Seq<char>, v: Seq<char>) -> Seq<(Seq<char>, Seq<char>)> {
    if has_key(e, k) {
        e.update(choose|i: int| 0 <= i < e.len() && e[i].0 == k, (k, v))
    } else {
        e.push((k, v))
    }
}

/// `e` with `(k, v)` appended unless the name `k` is bound already.
pub open spec fn env_add_absent(e: Seq<(Seq<char>, Seq<char>)>, k: Seq<char>, v: Seq<char>) -> Seq<(Seq<char>, Seq<char>)> {
    if has_key(e, k) { e } else { e.push((k, v)) }
}

/// Index `i` holds the first `=` of `s`.
pub open spec fn first_eq_at(s: Seq<char>, i: int) -> bool {
    0 <= i < s.len() && s[i] == '=' && forall|j: int| 0 <= j < i ==> s[j] != '='
}

/// `s` split at its first `=`, or `None` when it holds none.
pub open spec fn split_assignment(s: Seq<char>) -> Option<(Seq<char>, Seq<char>)> {
    if exists|i: int| first_eq_at(s, i) {
        let i = choose|i: int| first_eq_at(s, i);
        Some((s.subrange(0, i), s.subrange(i + 1, s.len() as int)))
    } else {
        None
    }
}

/// The variables given as `KEY=VALUE` arguments, a later one overriding an
/// earlier one of the same name; `None` when one of them holds no `=`.
pub open spec fn env_from_args(vars: Seq<Seq<char>>) -> Option<Seq<(Seq<char>, Seq<char>)>>
    decreases vars.len(),
{
    if vars.len() == 0 {
        Some(Seq::empty())
    } else {
        match env_from_args(vars.drop_last()) {
            None => None,
            Some(e) => match split_assignment(vars.last()) {
                None => None,
                Some(kv) => Some(env_set(e, kv.0, kv.1)),
            },
        }
    }
}

/// `e` extended by the assignments among `lines`, each added only when its
/// name is not bound yet; lines without `=` are skipped.
pub open spec fn merge_lines(e: Seq<(Seq<char>, Seq<char>)>, lines: Seq<Seq<char>>) -> Seq<(Seq<char>, Seq<char>)>
    decreases lines.len(),
{
    if lines.len() == 0 {
        e
    } else {
        let m = merge_lines(e, lines.drop_last());
        match split_assignment(lines.last()) {
            None => m,
            Some(kv) => env_add_absent(m, kv.0, kv.1),
        }
    }
}

/// The environment of a task with the contents of a `.env` file merged in:
/// the task's own values take precedence.
pub open spec fn merge_dotenv(e: Seq<(Seq<char>, Seq<char>)>, text: Seq<char>) -> Seq<(Seq<char>, Seq<char>)> {
    merge_lines(e, lines_of(text))
}

proof fn lemma_first_eq_unique(s: Seq<char>, i: int, j: int)
    requires
        first_eq_at(s, i),
        first_eq_at(s, j),
    ensures
        i == j,
{
    if i < j {
        assert(s[i] != '=');
    } else if j < i {
        assert(s[j] != '=');
    }
}

/// Splits `s` at its first `=` into name and value.
pub fn split_assignment_exec(s: &str) -> (r: Option<(String, String)>)
    ensures
        match r {
            None => split_assignment(s@) is None,
            Some(kv) => split_assignment(s@) == Some((kv.0@, kv.1@)),
        },
{
    let n = s.unicode_len();
    let mut i: usize = 0;
    while i < n
        invariant
            n == s@.len(),
            i <= n,
            forall|j: int| 0 <= j < i ==> s@[j] != '=',
        decreases n - i,
    {
        if s.get_char(i) == '=' {
            assert(first_eq_at(s@, i as int));
            proof {
                let c = choose|c: int| first_eq_at(s@, c);
                lemma_first_eq_unique(s@, c, i as int);
            }
            let k = String::from_str(s.substring_char(0, i));
            let v = String::from_str(s.substring_char(i + 1, n));
            return Some((k, v));
        }
        i = i + 1;
    }
    assert(!exists|c: int| first_eq_at(s@, c));
    None
}

/// The index of the pair named `k`, if any.
fn find_key(e: &EnvVars, k: &String) -> (r: Option<usize>)
    ensures
        match r {
            None => !has_key(env_view(e@), k@),
            Some(i) => i < e@.len() && env_view(e@)[i as int].0 == k@,
        },
{
    let mut i: usize = 0;
    while i < e.len()
        invariant
            i <= e@.len(),
            forall|j: int| 0 <= j < i ==> env_view(e@)[j].0 != k@,
        decreases e@.len() - i,
    {
        if e[i].0 == *k {
            return Some(i);
        }
        i = i + 1;
    }
    None
}

/// Binds `k` to `v`, replacing the value of a pair of that name.
pub fn set_var(e: &mut EnvVars, k: String, v: String)
    requires
        keys_unique(env_view(old(e)@)),
    ensures
        env_view(final(e)@) == env_set(env_view(old(e)@), k@, v@),
        keys_unique(env_view(final(e)@)),
{
    let ghost ev = env_view(e@);
    match find_key(e, &k) {
        Some(i) => {
            proof {
                let c = choose|c: int| 0 <= c < ev.len() && ev[c].0 == k@;
                if c != i as int {
                    if c < i as int {
                        assert(ev[c].0 != ev[i as int].0);
                    } else {
                        assert(ev[i as int].0 != ev[c].0);
                    }
                }
            }
            e.set(i, (k, v));
            assert(env_view(e@) =~= env_set(ev, k@, v@));
        }
        None => {
            e.push((k, v));
            assert(env_view(e@) =~= env_set(ev, k@, v@));
        }
    }
}

/// Adds `(k, v)` unless the name `k` is bound already.
pub fn add_var_if_absent(e: &mut EnvVars, k: String, v: String)
    requires
        keys_unique(env_view(old(e)@)),
    ensures
        env_view(final(e)@) == env_add_absent(env_view(old(e)@), k@, v@),
        keys_unique(env_view(final(e)@)),
{
    let ghost ev = env_view(e@);
    match find_key(e, &k) {
        Some(_) => {}
        None => {
            e.push((k, v));
            assert(env_view(e@) =~= env_add_absent(ev, k@, v@));
        }
    }
}

/// The variables given as `KEY=VALUE` arguments. Fails with `InvalidEnvVar`
/// on the first argument that holds no `=`.
pub fn parse_env_args(vars: &Vec<String>) -> (r: Result<EnvVars, HyperVError>)
    ensures
        match r {
            Ok(e) => env_from_args(vars@.map_values(|s: String| s@)) == Some(env_view(e@))
                && keys_unique(env_view(e@)),
            Err(err) => env_from_args(vars@.map_values(|s: String| s@)) is None
                && exists|i: int| 0 <= i < vars@.len()
                    && split_assignment(vars@[i]@) is None
                    && (forall|j: int| 0 <= j < i ==> split_assignment(vars@[j]@) is Some)
                    && err@ == ErrorView::InvalidEnvVar(vars@[i]@),
        },
{
    let ghost vs = vars@.map_values(|s: String| s@);
    let mut e: EnvVars = Vec::new();
    let mut i: usize = 0;
    while i < vars.len()
        invariant
            i <= vars@.len(),
            vs == vars@.map_values(|s: String| s@),
            env_from_args(vs.subrange(0, i as int)) == Some(env_view(e@)),
            keys_unique(env_view(e@)),
            forall|j: int| 0 <= j < i ==> split_assignment(vars@[j]@) is Some,
        decreases vars@.len() - i,
    {
        assert(vs.subrange(0, i as int + 1).drop_last() =~= vs.subrange(0, i as int));
        match split_assignment_exec(vars[i].as_str()) {
            None => {
                proof { lemma_args_none_extends(vs, i as int); }
                return Err(HyperVError::InvalidEnvVar(vars[i].clone()));
            }
            Some(kv) => {
                set_var(&mut e, kv.0, kv.1);
            }
        }
        i = i + 1;
    }
    assert(vs.subrange(0, vars@.len() as int) =~= vs);
    Ok(e)
}

proof fn lemma_args_none_extends(vs: Seq<Seq<char>>, i: int)
    requires
        0 <= i < vs.len(),
        split_assignment(vs[i]) is None,
    ensures
        env_from_args(vs) is None,
    decreases vs.len(),
{
    if i == vs.len() - 1 {
        assert(vs.last() == vs[i]);
    } else {
        lemma_args_none_extends(vs.drop_last(), i);
    }
}

/// The environment `e` with the assignments of a `.env` file's text merged
/// in; names already bound keep their value.
pub fn merge_dotenv_exec(e: &mut EnvVars, text: &str)
    requires
        keys_unique(env_view(old(e)@)),
    ensures
        env_view(final(e)@) == merge_dotenv(env_view(old(e)@), text@),
        keys_unique(env_view(final(e)@)),
{
    let ghost e0 = env_view(e@);
    let lines = split_lines(text);
    let ghost ls = lines@.map_values(|s: String| s@);
    assert(ls == lines_of(text@));
    let mut i: usize = 0;
    while i < lines.len()
        invariant
            i <= lines@.len(),
            ls == lines@.map_values(|s: String| s@),
            env_view(e@) == merge_lines(e0, ls.subrange(0, i as int)),
            keys_unique(env_view(e@)),
        decreases lines@.len() - i,
    {
        assert(ls.subrange(0, i as int + 1).drop_last() =~= ls.subrange(0, i as int));
        match split_assignment_exec(lines[i].as_str()) {
            None => {}
            Some(kv) => {
                add_var_if_absent(e, kv.0, kv.1);
            }
        }
        i = i + 1;
    }
    assert(ls.subrange(0, lines@.len() as int) =~= ls);
}

} // verus!
