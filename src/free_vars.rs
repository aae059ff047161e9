use crate::defines::{
    defines, defines_spec, has_key, keys_unique, CompileTimeDefineValue, DefineValueModel, PathModel,
};
use crate::env_map::{env_entries, split_dots};
use crate::mode::NextMode;
use indexmap::IndexMap;
use vstd::prelude::*;

verus! {

/// What a reference to a free (global) identifier is replaced with.
#[derive(Clone, Debug, PartialEq, Eq)]
pub enum FreeVarReference {
    /// An export of a module, resolved from `lookup_path` when it is given.
    EcmaScriptModule { request: String, lookup_path: Option<String>, export: Option<String> },
    /// A compile-time constant.
    Value(CompileTimeDefineValue),
    /// A diagnostic reported where the identifier is used.
    Error(String),
}

/// The mathematical value of a [`FreeVarReference`].
pub ghost enum FreeVarModel {
    EcmaScriptModule { request: Seq<char>, lookup_path: Option<Seq<char>>, export: Option<Seq<char>> },
    Value(DefineValueModel),
    Error(Seq<char>),
}

pub open spec fn opt_view(o: Option<String>) -> Option<Seq<char>> {
    match o {
        Some(s) => Some(s@),
        None => None,
    }
}

impl View for FreeVarReference {
    type V = FreeVarModel;

    open spec fn view(&self) -> FreeVarModel {
        match self {
            FreeVarReference::EcmaScriptModule { request, lookup_path, export } => FreeVarModel::EcmaScriptModule {
                request: request@,
                lookup_path: opt_view(*lookup_path),
                export: opt_view(*export),
            },
            FreeVarReference::Value(v) => FreeVarModel::Value(v@),
            FreeVarReference::Error(m) => FreeVarModel::Error(m@),
        }
    }
}

/// The substitution for one global identifier.
#[derive(Clone, Debug, PartialEq, Eq)]
pub struct FreeVarEntry {
    pub name: String,
    pub reference: FreeVarReference,
}

impl View for FreeVarEntry {
    type V = (Seq<char>, FreeVarModel);

    open spec fn view(&self) -> (Seq<char>, FreeVarModel) {
        (self.name@, self.reference@)
    }
}

/// The table of free-variable substitutions, in insertion order.
#[derive(Clone, Debug, PartialEq, Eq)]
pub struct FreeVarReferences {
    pub entries: Vec<FreeVarEntry>,
}

impl View for FreeVarReferences {
    type V = Seq<(Seq<char>, FreeVarModel)>;

    open spec fn view(&self) -> Seq<(Seq<char>, FreeVarModel)> {
        self.entries@.map_values(|e: FreeVarEntry| e@)
    }
}

/// `t` with the value under `k` replaced by `v` in place, or `(k, v)` appended when
/// `k` is not yet a key.
pub open spec fn put<K, V>(t: Seq<(K, V)>, k: K, v: V) -> Seq<(K, V)> {
    if has_key(t, k) {
        t.update(choose|i: int| 0 <= i < t.len() && (#[trigger] t[i]).0 == k, (k, v))
    } else {
        t.push((k, v))
    }
}

/// Whether `t` holds the entry `(k, v)`.
pub open spec fn has_entry<K, V>(t: Seq<(K, V)>, k: K, v: V) -> bool {
    exists|i: int| 0 <= i < t.len() && #[trigger] t[i] == (k, v)
}

/// `t` after each definition of `d`, in order, has been put under the first segment of
/// its path.
pub open spec fn import_defines(
    t: Seq<(Seq<char>, FreeVarModel)>,
    d: Seq<(PathModel, DefineValueModel)>,
) -> Seq<(Seq<char>, FreeVarModel)>
    decreases d.len(),
{
    if d.len() == 0 {
        t
    } else {
        put(import_defines(t, d.drop_last()), d.last().0[0], FreeVarModel::Value(d.last().1))
    }
}

/// The diagnostic attached to APIs that the edge runtime lacks.
pub open spec fn unsupported_api_message() -> Seq<char> {
    "A Node.js API is used which is not supported in the Edge Runtime. Learn more: https://nextjs.org/docs/api-reference/edge-runtime"@
}

/// Globals that the edge runtime does not provide.
pub open spec fn unsupported_apis() -> Seq<Seq<char>> {
    seq![
        "clearImmediate"@,
        "setImmediate"@,
        "BroadcastChannel"@,
        "ByteLengthQueuingStrategy"@,
        "CompressionStream"@,
        "CountQueuingStrategy"@,
        "DecompressionStream"@,
        "DomException"@,
        "MessageChannel"@,
        "MessageEvent"@,
        "MessagePort"@,
        "ReadableByteStreamController"@,
        "ReadableStreamBYOBRequest"@,
        "ReadableStreamDefaultController"@,
        "TransformStreamDefaultController"@,
        "WritableStreamDefaultController"@,
    ]
}

/// `t` after each name of `names`, in order, has been put with the unsupported-API
/// diagnostic.
pub open spec fn put_errors(t: Seq<(Seq<char>, FreeVarModel)>, names: Seq<Seq<char>>) -> Seq<(Seq<char>, FreeVarModel)>
    decreases names.len(),
{
    if names.len() == 0 {
        t
    } else {
        put(put_errors(t, names.drop_last()), names.last(), FreeVarModel::Error(unsupported_api_message()))
    }
}

/// The polyfill that `Buffer` resolves to.
pub open spec fn buffer_ref(root: Seq<char>) -> FreeVarModel {
    FreeVarModel::EcmaScriptModule {
        request: "next/dist/compiled/buffer"@,
        lookup_path: Some(root),
        export: Some("Buffer"@),
    }
}

/// The polyfill that `process` resolves to.
pub open spec fn process_ref(root: Seq<char>) -> FreeVarModel {
    FreeVarModel::EcmaScriptModule {
        request: "next/dist/build/polyfills/process"@,
        lookup_path: Some(root),
        export: Some("default"@),
    }
}

/// The free-variable table for `mode`, project root `root` and environment `env`: the
/// definitions keyed by their first segment, then the `Buffer` and `process`
/// polyfills, then, in a build, a diagnostic for each unsupported API.
pub open spec fn free_vars_spec(
    mode: NextMode,
    root: Seq<char>,
    env: Seq<(Seq<char>, Seq<char>)>,
) -> Seq<(Seq<char>, FreeVarModel)> {
    let with_defines = import_defines(Seq::empty(), defines_spec(mode, env));
    let with_polyfills = put(put(with_defines, "Buffer"@, buffer_ref(root)), "process"@, process_ref(root));
    match mode {
        NextMode::Build => put_errors(with_polyfills, unsupported_apis()),
        NextMode::Development => with_polyfills,
    }
}

impl FreeVarReferences {
    /// An empty table.
    pub fn new() -> (r: FreeVarReferences)
        ensures
            r@ == Seq::<(Seq<char>, FreeVarModel)>::empty(),
    {
        let r = FreeVarReferences { entries: Vec::new() };
        assert(r@ =~= Seq::<(Seq<char>, FreeVarModel)>::empty());
        r
    }

    /// Sets the substitution for `name`, replacing an earlier one in place.
    pub fn insert(&mut self, name: String, reference: FreeVarReference)
        requires
            keys_unique(old(self)@),
        ensures
            final(self)@ == put(old(self)@, name@, reference@),
            keys_unique(final(self)@),
    {
        let ghost e = (name@, reference@);
        let mut i: usize = 0;
        while i < self.entries.len()
            invariant
                0 <= i <= self.entries.len(),
                *self == *old(self),
                keys_unique(old(self)@),
                e == (name@, reference@),
                forall|j: int| 0 <= j < i ==> self@[j].0 != name@,
            decreases self.entries.len() - i,
        {
            if self.entries[i].name == name {
                let ghost t = self@;
                proof {
                    assert(has_key(t, name@)) by {
                        assert(t[i as int].0 == name@);
                    }
                    let k = choose|k: int| 0 <= k < t.len() && (#[trigger] t[k]).0 == name@;
                    assert(t[k].0 == t[i as int].0);
                    assert(k == i);
                }
                self.entries[i] = FreeVarEntry { name, reference };
                assert(self@ =~= t.update(i as int, e));
                return;
            }
            i = i + 1;
        }
        self.entries.push(FreeVarEntry { name, reference });
        assert(self@ =~= old(self)@.push(e));
    }
}

/// Every path of `d` has a first segment.
pub open spec fn paths_nonempty(d: Seq<(PathModel, DefineValueModel)>) -> bool {
    forall|i: int| 0 <= i < d.len() ==> (#[trigger] d[i]).0.len() > 0
}

proof fn lemma_split_dots_nonempty(s: Seq<char>)
    ensures
        split_dots(s).len() > 0,
    decreases s.len(),
{
    if s.len() > 0 {
        lemma_split_dots_nonempty(s.drop_first());
    }
}

proof fn lemma_merge_env_paths_nonempty(t: Seq<(PathModel, DefineValueModel)>, env: Seq<(Seq<char>, Seq<char>)>)
    requires
        paths_nonempty(t),
    ensures
        paths_nonempty(crate::defines::merge_env(t, env)),
    decreases env.len(),
{
    if env.len() > 0 {
        lemma_merge_env_paths_nonempty(t, env.drop_last());
        lemma_split_dots_nonempty(env.last().0);
    }
}

proof fn lemma_defines_paths_nonempty(mode: NextMode, env: Seq<(Seq<char>, Seq<char>)>)
    ensures
        paths_nonempty(defines_spec(mode, env)),
{
    let b = crate::defines::builtin_defines(mode);
    assert(b[0].0.len() > 0 && b[1].0.len() > 0 && b[2].0.len() > 0 && b[3].0.len() > 0);
    lemma_merge_env_paths_nonempty(b, env);
}

/// The names of the globals that the edge runtime does not provide.
pub fn unsupported_api_names() -> (r: Vec<String>)
    ensures
        r@.map_values(|s: String| s@) == unsupported_apis(),
{
    let r = vec![
        "clearImmediate".to_owned(),
        "setImmediate".to_owned(),
        "BroadcastChannel".to_owned(),
        "ByteLengthQueuingStrategy".to_owned(),
        "CompressionStream".to_owned(),
        "CountQueuingStrategy".to_owned(),
        "DecompressionStream".to_owned(),
        "DomException".to_owned(),
        "MessageChannel".to_owned(),
        "MessageEvent".to_owned(),
        "MessagePort".to_owned(),
        "ReadableByteStreamController".to_owned(),
        "ReadableStreamBYOBRequest".to_owned(),
        "ReadableStreamDefaultController".to_owned(),
        "TransformStreamDefaultController".to_owned(),
        "WritableStreamDefaultController".to_owned(),
    ];
    assert(r@.map_values(|s: String| s@) =~= unsupported_apis());
    r
}

/// The free-variable substitutions for edge code in `mode`, with polyfills resolved
/// from `project_path`. Every definition of [`defines`] is keyed by the first segment
/// of its path; `Buffer` and `process` then get their polyfill modules; in a build, every
/// API that the edge runtime lacks then gets a diagnostic. A later entry for a name
/// replaces an earlier one.
pub fn next_edge_free_vars(
    mode: NextMode,
    project_path: &String,
    define_env: &IndexMap<String, String>,
) -> (r: FreeVarReferences)
    ensures
        r@ == free_vars_spec(mode, project_path@, env_entries(*define_env)),
        keys_unique(r@),
{
    let d = defines(mode, define_env);
    proof {
        lemma_defines_paths_nonempty(mode, env_entries(*define_env));
    }
    let mut t = FreeVarReferences::new();
    let mut i: usize = 0;
    while i < d.entries.len()
        invariant
            0 <= i <= d.entries.len(),
            paths_nonempty(d@),
            keys_unique(t@),
            t@ == import_defines(Seq::empty(), d@.take(i as int)),
        decreases d.entries.len() - i,
    {
        let entry = &d.entries[i];
        assert(d@[i as int].0.len() > 0);
        let name = entry.path[0].clone();
        t.insert(name, FreeVarReference::Value(entry.value.duplicate()));
        assert(d@.take(i + 1).drop_last() =~= d@.take(i as int));
        i = i + 1;
    }
    assert(d@.take(d.entries.len() as int) =~= d@);
    t.insert(
        "Buffer".to_owned(),
        FreeVarReference::EcmaScriptModule {
            request: "next/dist/compiled/buffer".to_owned(),
            lookup_path: Some(project_path.clone()),
            export: Some("Buffer".to_owned()),
        },
    );
    t.insert(
        "process".to_owned(),
        FreeVarReference::EcmaScriptModule {
            request: "next/dist/build/polyfills/process".to_owned(),
            lookup_path: Some(project_path.clone()),
            export: Some("default".to_owned()),
        },
    );
    match mode {
        NextMode::Build => {
            let message = "A Node.js API is used which is not supported in the Edge Runtime. Learn more: https://nextjs.org/docs/api-reference/edge-runtime".to_owned();
            let names = unsupported_api_names();
            let ghost base = t@;
            let ghost name_views = names@.map_values(|s: String| s@);
            let mut j: usize = 0;
            while j < names.len()
                invariant
                    0 <= j <= names.len(),
                    message@ == unsupported_api_message(),
                    name_views == names@.map_values(|s: String| s@),
                    keys_unique(t@),
                    t@ == put_errors(base, name_views.take(j as int)),
                decreases names.len() - j,
            {
                t.insert(names[j].clone(), FreeVarReference::Error(message.clone()));
                assert(name_views.take(j + 1).drop_last() =~= name_views.take(j as int));
                j = j + 1;
            }
            assert(name_views.take(names.len() as int) =~= name_views);
        },
        NextMode::Development => {},
    }
    t
}

/// `t` has exactly one entry with key `k`, and its value is `v`.
pub open spec fn has_single_entry<K, V>(t: Seq<(K, V)>, k: K, v: V) -> bool {
    exists|i: int|
        0 <= i < t.len() && #[trigger] t[i] == (k, v) && forall|j: int| 0 <= j < t.len() && (#[trigger] t[j]).0 == k ==> j == i
}

/// No entry of `t` is a diagnostic.
pub open spec fn no_errors(t: Seq<(Seq<char>, FreeVarModel)>) -> bool {
    forall|i: int| 0 <= i < t.len() ==> !((#[trigger] t[i]).1 is Error)
}

proof fn lemma_put<K, V>(t: Seq<(K, V)>, k: K, v: V)
    requires
        keys_unique(t),
    ensures
        keys_unique(put(t, k, v)),
        has_entry(put(t, k, v), k, v),
        forall|k2: K, v2: V| k2 != k && has_entry(t, k2, v2) ==> #[trigger] has_entry(put(t, k, v), k2, v2),
        forall|i: int| 0 <= i < put(t, k, v).len() ==> (#[trigger] put(t, k, v)[i]) == (k, v) || exists|j: int| 0 <= j < t.len() && put(t, k, v)[i] == t[j],
{
    let p = put(t, k, v);
    if has_key(t, k) {
        let c = choose|i: int| 0 <= i < t.len() && (#[trigger] t[i]).0 == k;
        assert(p[c] == (k, v));
        assert forall|k2: K, v2: V| k2 != k && has_entry(t, k2, v2) implies #[trigger] has_entry(p, k2, v2) by {
            let i = choose|i: int| 0 <= i < t.len() && #[trigger] t[i] == (k2, v2);
            assert(p[i] == (k2, v2));
        }
        assert forall|i: int| 0 <= i < p.len() implies (#[trigger] p[i]) == (k, v) || exists|j: int| 0 <= j < t.len() && p[i] == t[j] by {
            if i != c {
                assert(p[i] == t[i]);
            }
        }
    } else {
        assert(p[t.len() as int] == (k, v));
        assert forall|k2: K, v2: V| k2 != k && has_entry(t, k2, v2) implies #[trigger] has_entry(p, k2, v2) by {
            let i = choose|i: int| 0 <= i < t.len() && #[trigger] t[i] == (k2, v2);
            assert(p[i] == (k2, v2));
        }
        assert forall|i: int| 0 <= i < p.len() implies (#[trigger] p[i]) == (k, v) || exists|j: int| 0 <= j < t.len() && p[i] == t[j] by {
            if i < t.len() {
                assert(p[i] == t[i]);
            }
        }
    }
}

proof fn lemma_put_no_errors(t: Seq<(Seq<char>, FreeVarModel)>, k: Seq<char>, v: FreeVarModel)
    requires
        keys_unique(t),
        no_errors(t),
        !(v is Error),
    ensures
        no_errors(put(t, k, v)),
{
    lemma_put(t, k, v);
    let p = put(t, k, v);
    assert forall|i: int| 0 <= i < p.len() implies !((#[trigger] p[i]).1 is Error) by {
        if p[i] != (k, v) {
            let j = choose|j: int| 0 <= j < t.len() && p[i] == t[j];
            assert(!(t[j].1 is Error));
        }
    }
}

proof fn lemma_import_defines(t: Seq<(Seq<char>, FreeVarModel)>, d: Seq<(PathModel, DefineValueModel)>)
    requires
        keys_unique(t),
        no_errors(t),
    ensures
        keys_unique(import_defines(t, d)),
        no_errors(import_defines(t, d)),
    decreases d.len(),
{
    if d.len() > 0 {
        lemma_import_defines(t, d.drop_last());
        lemma_put_no_errors(import_defines(t, d.drop_last()), d.last().0[0], FreeVarModel::Value(d.last().1));
    }
}

proof fn lemma_put_errors(t: Seq<(Seq<char>, FreeVarModel)>, names: Seq<Seq<char>>)
    requires
        keys_unique(t),
    ensures
        keys_unique(put_errors(t, names)),
        forall|j: int| 0 <= j < names.len() ==> has_entry(put_errors(t, names), #[trigger] names[j], FreeVarModel::Error(unsupported_api_message())),
        forall|k: Seq<char>, v: FreeVarModel| !names.contains(k) && has_entry(t, k, v) ==> #[trigger] has_entry(put_errors(t, names), k, v),
    decreases names.len(),
{
    if names.len() > 0 {
        let prev = names.drop_last();
        let e = FreeVarModel::Error(unsupported_api_message());
        lemma_put_errors(t, prev);
        lemma_put(put_errors(t, prev), names.last(), e);
        assert forall|j: int| 0 <= j < names.len() implies has_entry(put_errors(t, names), #[trigger] names[j], e) by {
            if j < names.len() - 1 {
                assert(prev[j] == names[j]);
            }
        }
        assert forall|k: Seq<char>, v: FreeVarModel| !names.contains(k) && has_entry(t, k, v) implies #[trigger] has_entry(put_errors(t, names), k, v) by {
            if prev.contains(k) {
                let j = choose|j: int| 0 <= j < prev.len() && prev[j] == k;
                assert(names[j] == k);
            }
            assert(names[names.len() - 1] != k);
        }
    }
}

proof fn lemma_single<K, V>(t: Seq<(K, V)>, k: K, v: V)
    requires
        keys_unique(t),
        has_entry(t, k, v),
    ensures
        has_single_entry(t, k, v),
{
    let i = choose|i: int| 0 <= i < t.len() && #[trigger] t[i] == (k, v);
    assert forall|j: int| 0 <= j < t.len() && (#[trigger] t[j]).0 == k implies j == i by {
        assert(t[i].0 == k);
    }
}

proof fn lemma_polyfills(mode: NextMode, root: Seq<char>, env: Seq<(Seq<char>, Seq<char>)>)
    ensures
        keys_unique(put(put(import_defines(Seq::empty(), defines_spec(mode, env)), "Buffer"@, buffer_ref(root)), "process"@, process_ref(root))),
        no_errors(put(put(import_defines(Seq::empty(), defines_spec(mode, env)), "Buffer"@, buffer_ref(root)), "process"@, process_ref(root))),
        has_entry(put(put(import_defines(Seq::empty(), defines_spec(mode, env)), "Buffer"@, buffer_ref(root)), "process"@, process_ref(root)), "Buffer"@, buffer_ref(root)),
        has_entry(put(put(import_defines(Seq::empty(), defines_spec(mode, env)), "Buffer"@, buffer_ref(root)), "process"@, process_ref(root)), "process"@, process_ref(root)),
{
    let t0 = import_defines(Seq::empty(), defines_spec(mode, env));
    lemma_import_defines(Seq::empty(), defines_spec(mode, env));
    lemma_put_no_errors(t0, "Buffer"@, buffer_ref(root));
    lemma_put(t0, "Buffer"@, buffer_ref(root));
    let t1 = put(t0, "Buffer"@, buffer_ref(root));
    lemma_put_no_errors(t1, "process"@, process_ref(root));
    lemma_put(t1, "process"@, process_ref(root));
    reveal_strlit("Buffer");
    reveal_strlit("process");
    assert("Buffer"@.len() != "process"@.len());
}

/// In development no free variable is turned into a diagnostic: in particular none of
/// the APIs that the edge runtime lacks is.
pub proof fn lemma_development_has_no_diagnostics(root: Seq<char>, env: Seq<(Seq<char>, Seq<char>)>)
    ensures
        no_errors(free_vars_spec(NextMode::Development, root, env)),
        forall|j: int, i: int|
            0 <= j < unsupported_apis().len() && 0 <= i < free_vars_spec(NextMode::Development, root, env).len()
                && (#[trigger] free_vars_spec(NextMode::Development, root, env)[i]).0 == #[trigger] unsupported_apis()[j]
                ==> !(free_vars_spec(NextMode::Development, root, env)[i].1 is Error),
{
    lemma_polyfills(NextMode::Development, root, env);
}

proof fn lemma_unsupported_names_long()
    ensures
        forall|j: int| 0 <= j < unsupported_apis().len() ==> (#[trigger] unsupported_apis()[j]).len() > 7,
{
    reveal_strlit("clearImmediate");
    reveal_strlit("setImmediate");
    reveal_strlit("BroadcastChannel");
    reveal_strlit("ByteLengthQueuingStrategy");
    reveal_strlit("CompressionStream");
    reveal_strlit("CountQueuingStrategy");
    reveal_strlit("DecompressionStream");
    reveal_strlit("DomException");
    reveal_strlit("MessageChannel");
    reveal_strlit("MessageEvent");
    reveal_strlit("MessagePort");
    reveal_strlit("ReadableByteStreamController");
    reveal_strlit("ReadableStreamBYOBRequest");
    reveal_strlit("ReadableStreamDefaultController");
    reveal_strlit("TransformStreamDefaultController");
    reveal_strlit("WritableStreamDefaultController");
}

/// In a build every API that the edge runtime lacks is a diagnostic entry carrying the
/// edge-runtime message.
pub proof fn lemma_build_diagnoses_unsupported_apis(root: Seq<char>, env: Seq<(Seq<char>, Seq<char>)>)
    ensures
        forall|j: int|
            0 <= j < unsupported_apis().len() ==> has_entry(
                free_vars_spec(NextMode::Build, root, env),
                #[trigger] unsupported_apis()[j],
                FreeVarModel::Error(unsupported_api_message()),
            ),
{
    lemma_polyfills(NextMode::Build, root, env);
    let t = put(put(import_defines(Seq::empty(), defines_spec(NextMode::Build, env)), "Buffer"@, buffer_ref(root)), "process"@, process_ref(root));
    lemma_put_errors(t, unsupported_apis());
}

/// Whatever the mode and the environment, the table holds exactly one entry for
/// `Buffer` and exactly one for `process`, each naming its polyfill module, and no
/// name twice.
pub proof fn lemma_polyfills_present(mode: NextMode, root: Seq<char>, env: Seq<(Seq<char>, Seq<char>)>)
    ensures
        keys_unique(free_vars_spec(mode, root, env)),
        has_single_entry(free_vars_spec(mode, root, env), "Buffer"@, buffer_ref(root)),
        has_single_entry(free_vars_spec(mode, root, env), "process"@, process_ref(root)),
{
    lemma_polyfills(mode, root, env);
    let t = put(put(import_defines(Seq::empty(), defines_spec(mode, env)), "Buffer"@, buffer_ref(root)), "process"@, process_ref(root));
    match mode {
        NextMode::Build => {
            lemma_put_errors(t, unsupported_apis());
            lemma_unsupported_names_long();
            reveal_strlit("Buffer");
            reveal_strlit("process");
            assert(!unsupported_apis().contains("Buffer"@));
            assert(!unsupported_apis().contains("process"@));
        },
        NextMode::Development => {},
    }
    lemma_single(free_vars_spec(mode, root, env), "Buffer"@, buffer_ref(root));
    lemma_single(free_vars_spec(mode, root, env), "process"@, process_ref(root));
}

} // verus!
