//! The command a session will execute.
//!
//! A `CommandSpec` accumulates the program path, argument vector, environment
//! and working directory between `create` and `spawn`, for both the
//! interactive (pseudo-terminal) and the batch (pipes) shape. The environment
//! is kept in insertion order: setting a variable again replaces its value in
//! place, setting a new one appends it.

use vstd::prelude::*;

verus! {

/// `base` with the variable `key` set to `val`: replaced in place when `key`
/// is already present (first occurrence), appended otherwise.
pub open spec fn env_set(
    base: Seq<(Seq<char>, Seq<char>)>,
    key: Seq<char>,
    val: Seq<char>,
) -> Seq<(Seq<char>, Seq<char>)>
    decreases base.len(),
{
    if base.len() == 0 {
        seq![(key, val)]
    } else if base[0].0 == key {
        seq![(key, val)] + base.drop_first()
    } else {
        seq![base[0]] + env_set(base.drop_first(), key, val)
    }
}

/// `base` after setting every binding of `additions`, in the given order.
pub open spec fn env_update(
    base: Seq<(Seq<char>, Seq<char>)>,
    additions: Seq<(Seq<char>, Seq<char>)>,
) -> Seq<(Seq<char>, Seq<char>)>
    decreases additions.len(),
{
    if additions.len() == 0 {
        base
    } else {
        env_update(env_set(base, additions[0].0, additions[0].1), additions.drop_first())
    }
}

/// No two bindings share a key. A bus map type cannot carry duplicates, so
/// every environment map received on the wire satisfies this.
pub open spec fn env_keys_distinct(m: Seq<(Seq<char>, Seq<char>)>) -> bool {
    forall|i: int, j: int| 0 <= i < j < m.len() ==> (#[trigger] m[i]).0 != (#[trigger] m[j]).0
}

/// A command to be executed, frozen at spawn time.
pub struct CommandSpec {
    /// Chosen at creation: pseudo-terminal (true) or pipes (false).
    pub interactive: bool,
    /// The program to execute.
    pub program: String,
    /// Its arguments, not counting the program itself.
    pub args: Vec<String>,
    /// Environment variables for the child, in insertion order.
    pub envs: Vec<(String, String)>,
    /// Working directory for the child; validated only at spawn, by the host.
    pub cwd: Option<String>,
}

impl CommandSpec {
    /// A fresh command: no arguments, no environment, no working directory.
    pub fn new(program: String, interactive: bool) -> (r: CommandSpec)
        ensures
            r.interactive == interactive,
            r.program == program,
            r.args@ =~= Seq::<String>::empty(),
            r.envs@ =~= Seq::<(String, String)>::empty(),
            r.cwd is None,
    {
        CommandSpec { interactive, program, args: Vec::new(), envs: Vec::new(), cwd: None }
    }

    /// Appends `args` to the argument vector.
    pub fn args(&mut self, args: Vec<String>)
        ensures
            final(self).interactive == old(self).interactive,
            final(self).program == old(self).program,
            final(self).args@ == old(self).args@ + args@,
            final(self).envs == old(self).envs,
            final(self).cwd == old(self).cwd,
    {
        let mut rest = args;
        self.args.append(&mut rest);
    }

    /// Sets one environment variable, replacing in place or appending.
    pub fn env_set(&mut self, key: String, val: String)
        ensures
            final(self).interactive == old(self).interactive,
            final(self).program == old(self).program,
            final(self).args == old(self).args,
            final(self).cwd == old(self).cwd,
            final(self).envs.deep_view() == env_set(old(self).envs.deep_view(), key@, val@),
    {
        let ghost pre = old(self).envs.deep_view();
        let mut i: usize = 0;
        while i < self.envs.len()
            invariant
                i <= self.envs@.len(),
                *self == *old(self),
                pre == old(self).envs.deep_view(),
                forall|j: int| 0 <= j < i ==> (#[trigger] pre[j]).0 != key@,
            decreases self.envs@.len() - i,
        {
            if self.envs[i].0 == key {
                proof {
                    assert(pre[i as int] == (old(self).envs@[i as int].0@, old(
                        self,
                    ).envs@[i as int].1@));
                }
                self.envs[i] = (key, val);
                proof {
                    lemma_env_set_found(pre, key@, val@, i as int);
                    assert forall|j: int| 0 <= j < self.envs.deep_view().len() implies
                        #[trigger] self.envs.deep_view()[j] == pre.update(
                        i as int,
                        (key@, val@),
                    )[j] by {
                        assert(self.envs.deep_view()[j] == (self.envs@[j].0@, self.envs@[j].1@));
                        if j != i as int {
                            assert(self.envs@[j] == old(self).envs@[j]);
                            assert(pre[j] == (old(self).envs@[j].0@, old(self).envs@[j].1@));
                        }
                    }
                    assert(self.envs.deep_view() =~= env_set(pre, key@, val@));
                }
                return ;
            }
            proof {
                assert(pre[i as int] == (old(self).envs@[i as int].0@, old(
                    self,
                ).envs@[i as int].1@));
            }
            i = i + 1;
        }
        self.envs.push((key, val));
        proof {
            lemma_env_set_missing(pre, key@, val@);
            assert forall|j: int| 0 <= j < self.envs.deep_view().len() implies
                #[trigger] self.envs.deep_view()[j] == pre.push((key@, val@))[j] by {
                assert(self.envs.deep_view()[j] == (self.envs@[j].0@, self.envs@[j].1@));
                if j < pre.len() {
                    assert(self.envs@[j] == old(self).envs@[j]);
                    assert(pre[j] == (old(self).envs@[j].0@, old(self).envs@[j].1@));
                }
            }
            assert(self.envs.deep_view() =~= env_set(pre, key@, val@));
        }
    }

    /// Sets every binding of `vars`, in order.
    pub fn envs(&mut self, vars: Vec<(String, String)>)
        ensures
            final(self).interactive == old(self).interactive,
            final(self).program == old(self).program,
            final(self).args == old(self).args,
            final(self).cwd == old(self).cwd,
            final(self).envs.deep_view() == env_update(
                old(self).envs.deep_view(),
                vars.deep_view(),
            ),
    {
        let ghost base = old(self).envs.deep_view();
        let ghost m = vars.deep_view();
        let mut k: usize = 0;
        while k < vars.len()
            invariant
                k <= vars@.len(),
                m == vars.deep_view(),
                self.interactive == old(self).interactive,
                self.program == old(self).program,
                self.args == old(self).args,
                self.cwd == old(self).cwd,
                self.envs.deep_view() == env_update(base, m.take(k as int)),
            decreases vars@.len() - k,
        {
            let key = vars[k].0.clone();
            let val = vars[k].1.clone();
            proof {
                assert(m[k as int] == (vars@[k as int].0@, vars@[k as int].1@));
            }
            self.env_set(key, val);
            proof {
                lemma_env_update_push(base, m.take(k as int), m[k as int]);
                assert(m.take(k as int).push(m[k as int]) =~= m.take(k as int + 1));
            }
            k = k + 1;
        }
        proof {
            assert(m.take(vars@.len() as int) =~= m);
        }
    }

    /// Sets the working directory.
    pub fn current_dir(&mut self, dir: String)
        ensures
            final(self).interactive == old(self).interactive,
            final(self).program == old(self).program,
            final(self).args == old(self).args,
            final(self).envs == old(self).envs,
            final(self).cwd == Some(dir),
    {
        self.cwd = Some(dir);
    }
}

/// When the first binding of `key` in `b` is at index `i`, setting `key`
/// replaces that binding in place.
proof fn lemma_env_set_found(b: Seq<(Seq<char>, Seq<char>)>, key: Seq<char>, val: Seq<char>, i: int)
    requires
        0 <= i < b.len(),
        b[i].0 == key,
        forall|j: int| 0 <= j < i ==> (#[trigger] b[j]).0 != key,
    ensures
        env_set(b, key, val) =~= b.update(i, (key, val)),
    decreases i,
{
    if i == 0 {
        assert(env_set(b, key, val) == seq![(key, val)] + b.drop_first());
        assert(seq![(key, val)] + b.drop_first() =~= b.update(0, (key, val)));
    } else {
        assert(b[0].0 != key);
        assert forall|j: int| 0 <= j < i - 1 implies (#[trigger] b.drop_first()[j]).0 != key by {
            assert(b.drop_first()[j] == b[j + 1]);
        }
        lemma_env_set_found(b.drop_first(), key, val, i - 1);
        assert(env_set(b, key, val) == seq![b[0]] + env_set(b.drop_first(), key, val));
        assert(seq![b[0]] + b.drop_first().update(i - 1, (key, val)) =~= b.update(i, (key, val)));
    }
}

/// Setting a key that `b` does not hold appends the binding.
proof fn lemma_env_set_missing(b: Seq<(Seq<char>, Seq<char>)>, key: Seq<char>, val: Seq<char>)
    requires
        forall|j: int| 0 <= j < b.len() ==> (#[trigger] b[j]).0 != key,
    ensures
        env_set(b, key, val) =~= b.push((key, val)),
    decreases b.len(),
{
    if b.len() > 0 {
        assert forall|j: int| 0 <= j < b.drop_first().len() implies (#[trigger] b.drop_first()[j]).0
            != key by {
            assert(b.drop_first()[j] == b[j + 1]);
        }
        lemma_env_set_missing(b.drop_first(), key, val);
        assert(seq![b[0]] + b.drop_first().push((key, val)) =~= b.push((key, val)));
    }
}

/// Updating by `s.push(p)` is updating by `s` and then setting `p`.
proof fn lemma_env_update_push(
    base: Seq<(Seq<char>, Seq<char>)>,
    s: Seq<(Seq<char>, Seq<char>)>,
    p: (Seq<char>, Seq<char>),
)
    ensures
        env_update(base, s.push(p)) == env_set(env_update(base, s), p.0, p.1),
    decreases s.len(),
{
    if s.len() == 0 {
        assert(s.push(p)[0] == p);
        assert(s.push(p).drop_first() =~= Seq::<(Seq<char>, Seq<char>)>::empty());
        assert(env_update(base, s.push(p)) == env_update(env_set(base, p.0, p.1), s.push(
            p,
        ).drop_first()));
    } else {
        assert(s.push(p)[0] == s[0]);
        assert(s.push(p).drop_first() =~= s.drop_first().push(p));
        lemma_env_update_push(env_set(base, s[0].0, s[0].1), s.drop_first(), p);
    }
}

/// A set of fresh, pairwise-distinct bindings lands verbatim at the end.
proof fn lemma_env_update_fresh(
    base: Seq<(Seq<char>, Seq<char>)>,
    m: Seq<(Seq<char>, Seq<char>)>,
)
    requires
        env_keys_distinct(m),
        forall|i: int, j: int|
            0 <= i < base.len() && 0 <= j < m.len() ==> (#[trigger] base[i]).0 != (
            #[trigger] m[j]).0,
    ensures
        env_update(base, m) =~= base + m,
    decreases m.len(),
{
    if m.len() == 0 {
        assert(base + m =~= base);
    } else {
        let b1 = env_set(base, m[0].0, m[0].1);
        assert forall|i: int| 0 <= i < base.len() implies (#[trigger] base[i]).0 != m[0].0 by {}
        lemma_env_set_missing(base, m[0].0, m[0].1);
        assert(b1 =~= base.push(m[0]));
        assert forall|i: int, j: int|
            0 <= i < b1.len() && 0 <= j < m.drop_first().len() implies (#[trigger] b1[i]).0 != (
        #[trigger] m.drop_first()[j]).0 by {
            assert(m.drop_first()[j] == m[j + 1]);
            if i < base.len() {
                assert(b1[i] == base[i]);
            } else {
                assert(b1[i] == m[0]);
            }
        }
        assert forall|i: int, j: int|
            0 <= i < j < m.drop_first().len() implies (#[trigger] m.drop_first()[i]).0 != (
        #[trigger] m.drop_first()[j]).0 by {
            assert(m.drop_first()[i] == m[i + 1]);
            assert(m.drop_first()[j] == m[j + 1]);
        }
        lemma_env_update_fresh(b1, m.drop_first());
        assert(base.push(m[0]) + m.drop_first() =~= base + m);
    }
}

/// Law: an environment map with pairwise-distinct keys, passed to a command
/// whose environment is still empty, appears verbatim and in order as the
/// command's environment.
pub proof fn lemma_env_round_trip(m: Seq<(Seq<char>, Seq<char>)>)
    requires
        env_keys_distinct(m),
    ensures
        env_update(Seq::<(Seq<char>, Seq<char>)>::empty(), m) =~= m,
{
    lemma_env_update_fresh(Seq::<(Seq<char>, Seq<char>)>::empty(), m);
    assert(Seq::<(Seq<char>, Seq<char>)>::empty() + m =~= m);
}

} // verus!
