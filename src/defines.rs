use crate::env_map::{env_entries, env_pairs, pair_views, split_dots, split_on_dots};
use crate::mode::{node_env_spec, NextMode};
use indexmap::IndexMap;
use vstd::prelude::*;

verus! {

/// A value that a compile-time constant is replaced with.
#[derive(Clone, Debug, PartialEq, Eq)]
pub enum CompileTimeDefineValue {
    Boolean(bool),
    String(String),
    /// Literal text that is read as a JSON expression, not as a quoted string.
    JSON(String),
}

impl CompileTimeDefineValue {
    /// A copy of this value.
    pub fn duplicate(&self) -> (r: CompileTimeDefineValue)
        ensures
            r@ == self@,
    {
        match self {
            CompileTimeDefineValue::Boolean(b) => CompileTimeDefineValue::Boolean(*b),
            CompileTimeDefineValue::String(s) => CompileTimeDefineValue::String(s.clone()),
            CompileTimeDefineValue::JSON(s) => CompileTimeDefineValue::JSON(s.clone()),
        }
    }
}

/// The mathematical value of a [`CompileTimeDefineValue`].
pub ghost enum DefineValueModel {
    Boolean(bool),
    String(Seq<char>),
    JSON(Seq<char>),
}

impl View for CompileTimeDefineValue {
    type V = DefineValueModel;

    open spec fn view(&self) -> DefineValueModel {
        match self {
            CompileTimeDefineValue::Boolean(b) => DefineValueModel::Boolean(*b),
            CompileTimeDefineValue::String(s) => DefineValueModel::String(s@),
            CompileTimeDefineValue::JSON(s) => DefineValueModel::JSON(s@),
        }
    }
}

/// A dotted path such as `process.env.NODE_ENV`, one segment per element.
pub type PathModel = Seq<Seq<char>>;

/// The segments of a path as character sequences.
pub open spec fn path_view(p: Seq<String>) -> PathModel {
    p.map_values(|s: String| s@)
}

/// One definition: the path it replaces and its value.
#[derive(Clone, Debug, PartialEq, Eq)]
pub struct DefineEntry {
    pub path: Vec<String>,
    pub value: CompileTimeDefineValue,
}

impl View for DefineEntry {
    type V = (PathModel, DefineValueModel);

    open spec fn view(&self) -> (PathModel, DefineValueModel) {
        (path_view(self.path@), self.value@)
    }
}

/// The table of compile-time constants, in insertion order, one entry per path.
#[derive(Clone, Debug, PartialEq, Eq)]
pub struct CompileTimeDefines {
    pub entries: Vec<DefineEntry>,
}

impl View for CompileTimeDefines {
    type V = Seq<(PathModel, DefineValueModel)>;

    open spec fn view(&self) -> Seq<(PathModel, DefineValueModel)> {
        self.entries@.map_values(|e: DefineEntry| e@)
    }
}

/// Whether some entry of `t` has key `k`.
pub open spec fn has_key<K, V>(t: Seq<(K, V)>, k: K) -> bool {
    exists|i: int| 0 <= i < t.len() && (#[trigger] t[i]).0 == k
}

/// No two entries of `t` share a key.
pub open spec fn keys_unique<K, V>(t: Seq<(K, V)>) -> bool {
    forall|i: int, j: int| 0 <= i < t.len() && 0 <= j < t.len() && i != j ==> (#[trigger] t[i]).0 != (#[trigger] t[j]).0
}

/// `t` with `(k, v)` appended, unless `k` is already a key of `t`.
pub open spec fn insert_if_absent<K, V>(t: Seq<(K, V)>, k: K, v: V) -> Seq<(K, V)> {
    if has_key(t, k) {
        t
    } else {
        t.push((k, v))
    }
}

/// The four definitions that every edge compilation carries.
pub open spec fn builtin_defines(mode: NextMode) -> Seq<(PathModel, DefineValueModel)> {
    seq![
        (seq!["process"@, "turbopack"@], DefineValueModel::Boolean(true)),
        (seq!["process"@, "env"@, "NEXT_RUNTIME"@], DefineValueModel::String("edge"@)),
        (seq!["process"@, "env"@, "NODE_ENV"@], DefineValueModel::String(node_env_spec(mode))),
        (seq!["process"@, "env"@, "TURBOPACK"@], DefineValueModel::Boolean(true)),
    ]
}

/// `t` after each environment variable, in order, has been inserted under its dotted
/// path as a JSON value, where no entry has that path yet.
pub open spec fn merge_env(
    t: Seq<(PathModel, DefineValueModel)>,
    env: Seq<(Seq<char>, Seq<char>)>,
) -> Seq<(PathModel, DefineValueModel)>
    decreases env.len(),
{
    if env.len() == 0 {
        t
    } else {
        let last = env.last();
        insert_if_absent(merge_env(t, env.drop_last()), split_dots(last.0), DefineValueModel::JSON(last.1))
    }
}

/// The definitions for `mode` and the environment variables `env`.
pub open spec fn defines_spec(mode: NextMode, env: Seq<(Seq<char>, Seq<char>)>) -> Seq<(PathModel, DefineValueModel)> {
    merge_env(builtin_defines(mode), env)
}

fn str_vec2(a: &str, b: &str) -> (r: Vec<String>)
    ensures
        path_view(r@) == seq![a@, b@],
{
    let r = vec![a.to_owned(), b.to_owned()];
    assert(path_view(r@) =~= seq![a@, b@]);
    r
}

fn str_vec3(a: &str, b: &str, c: &str) -> (r: Vec<String>)
    ensures
        path_view(r@) == seq![a@, b@, c@],
{
    let r = vec![a.to_owned(), b.to_owned(), c.to_owned()];
    assert(path_view(r@) =~= seq![a@, b@, c@]);
    r
}

/// Whether two paths have the same segments.
pub fn same_path(a: &Vec<String>, b: &Vec<String>) -> (r: bool)
    ensures
        r == (path_view(a@) == path_view(b@)),
{
    if a.len() != b.len() {
        assert(path_view(a@).len() != path_view(b@).len());
        return false;
    }
    let mut i: usize = 0;
    while i < a.len()
        invariant
            a.len() == b.len(),
            0 <= i <= a.len(),
            forall|j: int| 0 <= j < i ==> a@[j]@ == b@[j]@,
        decreases a.len() - i,
    {
        if a[i] != b[i] {
            assert(path_view(a@)[i as int] != path_view(b@)[i as int]);
            return false;
        }
        i = i + 1;
    }
    assert(path_view(a@) =~= path_view(b@));
    true
}

impl CompileTimeDefines {
    /// Whether some entry has the path `path`.
    pub fn contains_path(&self, path: &Vec<String>) -> (r: bool)
        ensures
            r == has_key(self@, path_view(path@)),
    {
        let mut i: usize = 0;
        while i < self.entries.len()
            invariant
                0 <= i <= self.entries.len(),
                forall|j: int| 0 <= j < i ==> self@[j].0 != path_view(path@),
            decreases self.entries.len() - i,
        {
            if same_path(&self.entries[i].path, path) {
                assert(self@[i as int].0 == path_view(path@));
                return true;
            }
            i = i + 1;
        }
        false
    }

    /// Adds `value` under `path` unless an entry already has that path.
    pub fn insert_if_absent(&mut self, path: Vec<String>, value: CompileTimeDefineValue)
        ensures
            final(self)@ == insert_if_absent(old(self)@, path_view(path@), value@),
    {
        if !self.contains_path(&path) {
            let ghost e = DefineEntry { path, value }@;
            self.entries.push(DefineEntry { path, value });
            assert(self@ =~= old(self)@.push(e));
        }
    }
}

/// The four built-in definitions for `mode`.
pub fn builtin_table(mode: NextMode) -> (r: CompileTimeDefines)
    ensures
        r@ == builtin_defines(mode),
{
    let entries = vec![
        DefineEntry { path: str_vec2("process", "turbopack"), value: CompileTimeDefineValue::Boolean(true) },
        DefineEntry {
            path: str_vec3("process", "env", "NEXT_RUNTIME"),
            value: CompileTimeDefineValue::String("edge".to_owned()),
        },
        DefineEntry {
            path: str_vec3("process", "env", "NODE_ENV"),
            value: CompileTimeDefineValue::String(mode.node_env()),
        },
        DefineEntry { path: str_vec3("process", "env", "TURBOPACK"), value: CompileTimeDefineValue::Boolean(true) },
    ];
    let r = CompileTimeDefines { entries };
    assert(r@ =~= builtin_defines(mode));
    r
}

/// Merges the environment variables, given as (name, value) pairs in order, into the
/// built-in definitions. A name is split at its dots into a path, and its value is
/// kept as JSON text; a path that is already defined keeps its first value.
pub fn defines_from_pairs(mode: NextMode, env: &Vec<(String, String)>) -> (r: CompileTimeDefines)
    ensures
        r@ == defines_spec(mode, pair_views(env@)),
{
    let mut defines = builtin_table(mode);
    let ghost pairs = pair_views(env@);
    let mut i: usize = 0;
    while i < env.len()
        invariant
            0 <= i <= env.len(),
            pairs == pair_views(env@),
            defines@ == merge_env(builtin_defines(mode), pairs.take(i as int)),
        decreases env.len() - i,
    {
        let path = split_on_dots(env[i].0.as_str());
        let value = CompileTimeDefineValue::JSON(env[i].1.clone());
        assert(path_view(path@) =~= split_dots(env@[i as int].0@));
        defines.insert_if_absent(path, value);
        assert(pairs.take(i + 1).drop_last() =~= pairs.take(i as int));
        i = i + 1;
    }
    assert(pairs.take(env.len() as int) =~= pairs);
    defines
}

/// The compile-time definitions for edge code: the four built-ins, then each entry of
/// `define_env` whose dotted name is not yet defined, as a JSON value.
pub fn defines(mode: NextMode, define_env: &IndexMap<String, String>) -> (r: CompileTimeDefines)
    ensures
        r@ == defines_spec(mode, env_entries(*define_env)),
        keys_unique(r@),
{
    proof {
        lemma_builtins_win(mode, env_entries(*define_env));
    }
    let pairs = env_pairs(define_env);
    defines_from_pairs(mode, &pairs)
}

proof fn lemma_merge_env_keeps_prefix(t: Seq<(PathModel, DefineValueModel)>, env: Seq<(Seq<char>, Seq<char>)>)
    requires
        keys_unique(t),
    ensures
        keys_unique(merge_env(t, env)),
        merge_env(t, env).len() >= t.len(),
        forall|i: int| 0 <= i < t.len() ==> merge_env(t, env)[i] == t[i],
    decreases env.len(),
{
    if env.len() > 0 {
        lemma_merge_env_keeps_prefix(t, env.drop_last());
    }
}

proof fn lemma_builtin_keys_unique(mode: NextMode)
    ensures
        keys_unique(builtin_defines(mode)),
{
    reveal_strlit("NEXT_RUNTIME");
    reveal_strlit("NODE_ENV");
    reveal_strlit("TURBOPACK");
    let b = builtin_defines(mode);
    assert(b[1].0[2].len() == 12 && b[2].0[2].len() == 8 && b[3].0[2].len() == 9);
    assert(b[0].0.len() == 2 && b[1].0.len() == 3 && b[2].0.len() == 3 && b[3].0.len() == 3);
    assert(b[1].0 != b[2].0 && b[1].0 != b[3].0 && b[2].0 != b[3].0);
}

/// Built-in definitions always win: whatever the environment variables hold, the
/// definitions start with the four built-ins, no path occurs twice, and so an entry
/// whose path is a built-in path carries the built-in value.
pub proof fn lemma_builtins_win(mode: NextMode, env: Seq<(Seq<char>, Seq<char>)>)
    ensures
        keys_unique(defines_spec(mode, env)),
        defines_spec(mode, env).take(4) == builtin_defines(mode),
        forall|i: int, j: int|
            0 <= i < defines_spec(mode, env).len() && 0 <= j < 4
                && (#[trigger] defines_spec(mode, env)[i]).0 == (#[trigger] builtin_defines(mode)[j]).0
                ==> defines_spec(mode, env)[i].1 == builtin_defines(mode)[j].1,
{
    let b = builtin_defines(mode);
    let d = defines_spec(mode, env);
    lemma_builtin_keys_unique(mode);
    lemma_merge_env_keeps_prefix(b, env);
    assert(d.take(4) =~= b);
    assert forall|i: int, j: int| 0 <= i < d.len() && 0 <= j < 4 && (#[trigger] d[i]).0 == (#[trigger] b[j]).0 implies d[i].1
        == b[j].1 by {
        assert(d[j] == b[j]);
    }
}

} // verus!
