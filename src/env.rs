use vstd::prelude::*;

verus! {

/// Index of the first `}` in `t`, or -1 when there is none.
pub open spec fn close_index(t: Seq<char>) -> int
    decreases t.len(),
{
    if t.len() == 0 {
        -1
    } else if t[0] == '}' {
        0
    } else {
        let r = close_index(t.drop_first());
        if r < 0 {
            -1
        } else {
            r + 1
        }
    }
}

/// The value of variable `name` in `vars`, the first entry winning; an unset
/// variable reads as the empty string.
pub open spec fn env_value(vars: Seq<(String, String)>, name: Seq<char>) -> Seq<char>
    decreases vars.len(),
{
    if vars.len() == 0 {
        Seq::empty()
    } else if vars[0].0@ == name {
        vars[0].1@
    } else {
        env_value(vars.drop_first(), name)
    }
}

/// `s` with every placeholder `${NAME}` replaced by the value of `NAME`.
/// A placeholder runs from `${` to the first `}` after it; a `${` with no
/// `}` after it is kept as it stands.
pub open spec fn expand(s: Seq<char>, vars: Seq<(String, String)>) -> Seq<char>
    decreases s.len(),
{
    if s.len() == 0 {
        Seq::empty()
    } else if s.len() >= 2 && s[0] == '$' && s[1] == '{' && 0 <= close_index(s.subrange(2, s.len() as int))
        < s.len() - 2 {
        let k = close_index(s.subrange(2, s.len() as int));
        env_value(vars, s.subrange(2, 2 + k)) + expand(s.subrange(3 + k, s.len() as int), vars)
    } else {
        seq![s[0]] + expand(s.subrange(1, s.len() as int), vars)
    }
}

/// No `${` starts inside `s`.
pub open spec fn has_no_placeholder_start(s: Seq<char>) -> bool {
    forall|i: int| 0 <= i < s.len() - 1 ==> !(#[trigger] s[i] == '$' && s[i + 1] == '{')
}

proof fn lemma_close_index_found(t: Seq<char>, k: int)
    requires
        0 <= k < t.len(),
        t[k] == '}',
        forall|j: int| 0 <= j < k ==> t[j] != '}',
    ensures
        close_index(t) == k,
    decreases k,
{
    if k > 0 {
        lemma_close_index_found(t.drop_first(), k - 1);
    }
}

proof fn lemma_close_index_absent(t: Seq<char>)
    requires
        forall|j: int| 0 <= j < t.len() ==> t[j] != '}',
    ensures
        close_index(t) == -1,
    decreases t.len(),
{
    if t.len() > 0 {
        lemma_close_index_absent(t.drop_first());
    }
}

/// The value of `name` in `vars`.
fn lookup(vars: &Vec<(String, String)>, name: &String) -> (r: String)
    ensures
        r@ == env_value(vars@, name@),
{
    let mut i: usize = 0;
    assert(vars@.subrange(0, vars@.len() as int) =~= vars@);
    while i < vars.len()
        invariant
            i <= vars@.len(),
            env_value(vars@, name@) == env_value(vars@.subrange(i as int, vars@.len() as int), name@),
        decreases vars@.len() - i,
    {
        let ghost rest = vars@.subrange(i as int, vars@.len() as int);
        assert(rest.drop_first() =~= vars@.subrange(i + 1, vars@.len() as int));
        if vars[i].0 == *name {
            return vars[i].1.clone();
        }
        i = i + 1;
    }
    String::new()
}

/// Replaces every placeholder `${NAME}` of `input` by the value of `NAME` in
/// `vars` (a list of variable names and values), or by nothing when `NAME` is
/// not set.
pub fn replace_env_vars(input: &str, vars: &Vec<(String, String)>) -> (r: String)
    ensures
        r@ == expand(input@, vars@),
{
    let n = input.unicode_len();
    let mut out = String::new();
    let mut i: usize = 0;
    assert(input@.subrange(0, n as int) =~= input@);
    assert(out@ + expand(input@, vars@) =~= expand(input@, vars@));
    while i < n
        invariant
            n == input@.len(),
            i <= n,
            out@ + expand(input@.subrange(i as int, n as int), vars@) == expand(input@, vars@),
        decreases n - i,
    {
        let ghost t = input@.subrange(i as int, n as int);
        let ghost before = out@;
        let mut j: usize = n;
        if i + 1 < n && input.get_char(i) == '$' && input.get_char(i + 1) == '{' {
            j = i + 2;
            while j < n && input.get_char(j) != '}'
                invariant
                    n == input@.len(),
                    i + 2 <= j <= n,
                    forall|k: int| i + 2 <= k < j ==> input@[k] != '}',
                decreases n - j,
            {
                j = j + 1;
            }
            let ghost u = t.subrange(2, t.len() as int);
            assert(u =~= input@.subrange(i + 2, n as int));
            if j < n {
                proof {
                    lemma_close_index_found(u, j - i - 2);
                }
                let name = String::from_str(input.substring_char(i + 2, j));
                let value = lookup(vars, &name);
                out.append(value.as_str());
                assert(t.subrange(2, 2 + (j - i - 2)) =~= name@);
                assert(t.subrange(3 + (j - i - 2), t.len() as int) =~= input@.subrange(
                    j + 1,
                    n as int,
                ));
                assert(before + expand(t, vars@) =~= out@ + expand(
                    input@.subrange(j + 1, n as int),
                    vars@,
                ));
                i = j + 1;
            } else {
                proof {
                    lemma_close_index_absent(u);
                }
            }
        }
        if j == n {
            out.append(input.substring_char(i, i + 1));
            assert(t.subrange(1, t.len() as int) =~= input@.subrange(i + 1, n as int));
            assert(before + expand(t, vars@) =~= out@ + expand(
                input@.subrange(i + 1, n as int),
                vars@,
            ));
            i = i + 1;
        }
    }
    assert(input@.subrange(n as int, n as int) =~= Seq::<char>::empty());
    assert(out@ + Seq::<char>::empty() =~= out@);
    out
}

/// A placeholder for `name`, preceded by text that starts no placeholder of
/// its own, is replaced by the value of `name`, or by nothing when `name` is
/// not set; the rest of the text is resolved on its own.
pub proof fn lemma_placeholder_replaced(
    prefix: Seq<char>,
    name: Seq<char>,
    suffix: Seq<char>,
    vars: Seq<(String, String)>,
)
    requires
        has_no_placeholder_start(prefix),
        forall|i: int| 0 <= i < name.len() ==> name[i] != '}',
    ensures
        expand(prefix + seq!['$', '{'] + name + seq!['}'] + suffix, vars) == prefix + env_value(
            vars,
            name,
        ) + expand(suffix, vars),
        (forall|i: int| 0 <= i < vars.len() ==> vars[i].0@ != name) ==> env_value(vars, name)
            == Seq::<char>::empty(),
    decreases prefix.len(),
{
    let s = prefix + seq!['$', '{'] + name + seq!['}'] + suffix;
    if prefix.len() == 0 {
        let u = s.subrange(2, s.len() as int);
        assert(u =~= name + seq!['}'] + suffix);
        lemma_close_index_found(u, name.len() as int);
        assert(s.subrange(2, 2 + name.len() as int) =~= name);
        assert(s.subrange(3 + name.len() as int, s.len() as int) =~= suffix);
        assert(prefix + env_value(vars, name) =~= env_value(vars, name));
    } else {
        let p = prefix.subrange(1, prefix.len() as int);
        assert(has_no_placeholder_start(p)) by {
            assert forall|i: int| 0 <= i < p.len() - 1 implies !(#[trigger] p[i] == '$' && p[i + 1] == '{') by {
                assert(p[i] == prefix[i + 1] && p[i + 1] == prefix[i + 2]);
            }
        }
        lemma_placeholder_replaced(p, name, suffix, vars);
        assert(s.subrange(1, s.len() as int) =~= p + seq!['$', '{'] + name + seq!['}'] + suffix);
        assert(s[0] == prefix[0]);
        if prefix.len() >= 2 {
            assert(s[1] == prefix[1]);
        } else {
            assert(s[1] == '$');
        }
        assert(seq![prefix[0]] + (p + env_value(vars, name) + expand(suffix, vars)) =~= prefix
            + env_value(vars, name) + expand(suffix, vars));
    }
    lemma_unset_reads_empty(vars, name);
}

proof fn lemma_unset_reads_empty(vars: Seq<(String, String)>, name: Seq<char>)
    ensures
        (forall|i: int| 0 <= i < vars.len() ==> vars[i].0@ != name) ==> env_value(vars, name)
            == Seq::<char>::empty(),
    decreases vars.len(),
{
    if vars.len() > 0 {
        lemma_unset_reads_empty(vars.drop_first(), name);
        if forall|i: int| 0 <= i < vars.len() ==> vars[i].0@ != name {
            assert(vars[0].0@ != name);
            assert forall|i: int| 0 <= i < vars.drop_first().len() implies vars.drop_first()[i].0@ != name by {
                assert(vars.drop_first()[i] == vars[i + 1]);
            }
        }
    }
}

} // verus!
