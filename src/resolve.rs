use crate::mode::{node_env_spec, NextMode, ServerContextType};
use vstd::prelude::*;

verus! {

#[verifier::external_type_specification]
#[verifier::external_body]
pub struct ExAnyhowError(anyhow::Error);

/// Characters of each string of a sequence.
pub open spec fn strings_view(v: Seq<String>) -> Seq<Seq<char>> {
    v.map_values(|s: String| s@)
}

/// One aliasing rule of an import map: `request` resolves as `target` does.
#[derive(Clone, Debug, PartialEq, Eq)]
pub struct ImportMapping {
    pub request: String,
    pub target: String,
}

/// Aliases applied to import requests before they are resolved.
#[derive(Clone, Debug, PartialEq, Eq)]
pub struct ImportMap {
    pub mappings: Vec<ImportMapping>,
}

impl View for ImportMap {
    type V = Seq<(Seq<char>, Seq<char>)>;

    open spec fn view(&self) -> Seq<(Seq<char>, Seq<char>)> {
        self.mappings@.map_values(|m: ImportMapping| (m.request@, m.target@))
    }
}

impl ImportMap {
    /// A copy of this import map.
    pub fn duplicate(&self) -> (r: ImportMap)
        ensures
            r@ == self@,
    {
        let mut mappings: Vec<ImportMapping> = Vec::new();
        let mut i: usize = 0;
        while i < self.mappings.len()
            invariant
                0 <= i <= self.mappings.len(),
                mappings.len() == i,
                forall|j: int| 0 <= j < i ==> (#[trigger] mappings@[j]).request@ == self.mappings@[j].request@
                    && mappings@[j].target@ == self.mappings@[j].target@,
            decreases self.mappings.len() - i,
        {
            let m = &self.mappings[i];
            mappings.push(ImportMapping { request: m.request.clone(), target: m.target.clone() });
            i = i + 1;
        }
        let r = ImportMap { mappings };
        assert(r@ =~= self@);
        r
    }
}

/// Which modules a rule applies to: those under any of the listed directories.
#[derive(Clone, Debug, PartialEq, Eq)]
pub struct ContextCondition {
    pub in_directories: Vec<String>,
}

/// The resolution plugins that edge code uses.
#[derive(Clone, Copy, Debug, PartialEq, Eq, Structural)]
pub enum ResolvePluginKind {
    /// Reports which module features are used.
    ModuleFeatureReport,
    /// Reports imports of modules that the edge runtime cannot load.
    UnsupportedModules,
    /// Redirects the shared runtime modules.
    NextSharedRuntime,
}

/// A resolution plugin for the project at `project_path`.
#[derive(Clone, Debug, PartialEq, Eq)]
pub struct ResolvePlugin {
    pub kind: ResolvePluginKind,
    pub project_path: String,
}

impl View for ResolvePlugin {
    type V = (ResolvePluginKind, Seq<char>);

    open spec fn view(&self) -> (ResolvePluginKind, Seq<char>) {
        (self.kind, self.project_path@)
    }
}

/// How module requests are resolved within one part of the module graph.
#[derive(Clone, Debug, PartialEq, Eq)]
pub struct ResolveOptions {
    /// The directory from which `node_modules` are looked up, if they are.
    pub enable_node_modules: Option<String>,
    /// Export conditions, in order of preference.
    pub custom_conditions: Vec<String>,
    pub import_map: Option<ImportMap>,
    pub module: bool,
    pub browser: bool,
    pub enable_typescript: bool,
    pub enable_react: bool,
    pub plugins: Vec<ResolvePlugin>,
}

/// The mathematical value of [`ResolveOptions`].
pub ghost struct ResolveOptionsModel {
    pub enable_node_modules: Option<Seq<char>>,
    pub custom_conditions: Seq<Seq<char>>,
    pub import_map: Option<Seq<(Seq<char>, Seq<char>)>>,
    pub module: bool,
    pub browser: bool,
    pub enable_typescript: bool,
    pub enable_react: bool,
    pub plugins: Seq<(ResolvePluginKind, Seq<char>)>,
}

impl View for ResolveOptions {
    type V = ResolveOptionsModel;

    open spec fn view(&self) -> ResolveOptionsModel {
        ResolveOptionsModel {
            enable_node_modules: match self.enable_node_modules {
                Some(s) => Some(s@),
                None => None,
            },
            custom_conditions: strings_view(self.custom_conditions@),
            import_map: match self.import_map {
                Some(m) => Some(m@),
                None => None,
            },
            module: self.module,
            browser: self.browser,
            enable_typescript: self.enable_typescript,
            enable_react: self.enable_react,
            plugins: self.plugins@.map_values(|p: ResolvePlugin| p@),
        }
    }
}

/// Options that apply, instead of the outer ones, to modules matching `condition`.
#[derive(Clone, Debug, PartialEq, Eq)]
pub struct ResolveRule {
    pub condition: ContextCondition,
    pub options: ResolveOptions,
}

/// Resolution options with per-region overrides.
#[derive(Clone, Debug, PartialEq, Eq)]
pub struct ResolveOptionsContext {
    pub options: ResolveOptions,
    pub rules: Vec<ResolveRule>,
}

/// The export conditions for edge code of kind `ty` in `mode`.
pub open spec fn edge_conditions_spec(mode: NextMode, ty: ServerContextType) -> Seq<Seq<char>> {
    let base = seq![node_env_spec(mode), "edge-light"@, "worker"@];
    match ty {
        ServerContextType::AppRSC => base.push("react-server"@),
        ServerContextType::AppRoute => base,
        ServerContextType::AppSSR => base,
        ServerContextType::Pages => base,
        ServerContextType::PagesData => base,
        ServerContextType::Middleware => base,
    }
}

/// The plugins of edge code for the project at `project`.
pub open spec fn edge_plugins_spec(project: Seq<char>) -> Seq<(ResolvePluginKind, Seq<char>)> {
    seq![
        (ResolvePluginKind::ModuleFeatureReport, project),
        (ResolvePluginKind::UnsupportedModules, project),
        (ResolvePluginKind::NextSharedRuntime, project),
    ]
}

/// The options that hold inside foreign code: those of edge code without the
/// TypeScript and React refinements.
pub open spec fn edge_base_options(
    mode: NextMode,
    ty: ServerContextType,
    project: Seq<char>,
    root: Seq<char>,
    import_map: Seq<(Seq<char>, Seq<char>)>,
) -> ResolveOptionsModel {
    ResolveOptionsModel {
        enable_node_modules: Some(root),
        custom_conditions: edge_conditions_spec(mode, ty),
        import_map: Some(import_map),
        module: true,
        browser: true,
        enable_typescript: false,
        enable_react: false,
        plugins: edge_plugins_spec(project),
    }
}

/// The options that hold outside foreign code.
pub open spec fn edge_outer_options(
    mode: NextMode,
    ty: ServerContextType,
    project: Seq<char>,
    root: Seq<char>,
    import_map: Seq<(Seq<char>, Seq<char>)>,
) -> ResolveOptionsModel {
    ResolveOptionsModel {
        enable_typescript: true,
        enable_react: true,
        ..edge_base_options(mode, ty, project, root, import_map)
    }
}

/// The export conditions for edge code of kind `ty` in `mode`: the `NODE_ENV` name,
/// `edge-light` and `worker`, and `react-server` for React server components.
pub fn edge_conditions(mode: NextMode, ty: ServerContextType) -> (r: Vec<String>)
    ensures
        strings_view(r@) == edge_conditions_spec(mode, ty),
{
    let mut conditions = vec![mode.node_env(), "edge-light".to_owned(), "worker".to_owned()];
    match ty {
        ServerContextType::AppRSC => conditions.push("react-server".to_owned()),
        ServerContextType::AppRoute
        | ServerContextType::AppSSR
        | ServerContextType::Pages
        | ServerContextType::PagesData
        | ServerContextType::Middleware => {},
    }
    assert(strings_view(conditions@) =~= edge_conditions_spec(mode, ty));
    conditions
}

/// The three resolution plugins of edge code, each for `project_path`.
pub fn edge_plugins(project_path: &String) -> (r: Vec<ResolvePlugin>)
    ensures
        r@.map_values(|p: ResolvePlugin| p@) == edge_plugins_spec(project_path@),
{
    let r = vec![
        ResolvePlugin { kind: ResolvePluginKind::ModuleFeatureReport, project_path: project_path.clone() },
        ResolvePlugin { kind: ResolvePluginKind::UnsupportedModules, project_path: project_path.clone() },
        ResolvePlugin { kind: ResolvePluginKind::NextSharedRuntime, project_path: project_path.clone() },
    ];
    assert(r@.map_values(|p: ResolvePlugin| p@) =~= edge_plugins_spec(project_path@));
    r
}

/// The resolution options of edge code of kind `ty` in `mode`, for the project at
/// `project_path`. The other arguments are what the collaborators gave: the edge import
/// map, the root that `node_modules` are looked up from, and the condition that
/// matches foreign code. The first of them that failed is handed back unchanged.
/// Otherwise the options enable TypeScript and React, and one rule gives foreign code
/// the same options without them.
pub fn get_edge_resolve_options_context(
    project_path: &String,
    ty: ServerContextType,
    mode: NextMode,
    import_map: anyhow::Result<ImportMap>,
    project_root: anyhow::Result<String>,
    foreign_code: anyhow::Result<ContextCondition>,
) -> (r: anyhow::Result<ResolveOptionsContext>)
    ensures
        import_map is Err ==> r is Err && r->Err_0 == import_map->Err_0,
        import_map is Ok && project_root is Err ==> r is Err && r->Err_0 == project_root->Err_0,
        import_map is Ok && project_root is Ok && foreign_code is Err ==> r is Err && r->Err_0
            == foreign_code->Err_0,
        import_map is Ok && project_root is Ok && foreign_code is Ok ==> r is Ok && ({
            let c = r->Ok_0;
            let base = edge_base_options(mode, ty, project_path@, project_root->Ok_0@, import_map->Ok_0@);
            &&& c.options@ == edge_outer_options(mode, ty, project_path@, project_root->Ok_0@, import_map->Ok_0@)
            &&& c.rules.len() == 1
            &&& c.rules@[0].condition == foreign_code->Ok_0
            &&& c.rules@[0].options@ == base
        }),
{
    let import_map = match import_map {
        Ok(m) => m,
        Err(e) => return Err(e),
    };
    let project_root = match project_root {
        Ok(p) => p,
        Err(e) => return Err(e),
    };
    let foreign_code = match foreign_code {
        Ok(c) => c,
        Err(e) => return Err(e),
    };
    let base = ResolveOptions {
        enable_node_modules: Some(project_root.clone()),
        custom_conditions: edge_conditions(mode, ty),
        import_map: Some(import_map.duplicate()),
        module: true,
        browser: true,
        enable_typescript: false,
        enable_react: false,
        plugins: edge_plugins(project_path),
    };
    let options = ResolveOptions {
        enable_node_modules: Some(project_root),
        custom_conditions: edge_conditions(mode, ty),
        import_map: Some(import_map),
        module: true,
        browser: true,
        enable_typescript: true,
        enable_react: true,
        plugins: edge_plugins(project_path),
    };
    let rules = vec![ResolveRule { condition: foreign_code, options: base }];
    Ok(ResolveOptionsContext { options, rules })
}

/// Building the resolution options twice from the same inputs gives equal options and
/// equal overrides for foreign code: nothing but the inputs decides them.
pub proof fn lemma_resolve_options_deterministic(
    a: ResolveOptionsContext,
    b: ResolveOptionsContext,
    mode: NextMode,
    ty: ServerContextType,
    project_path: Seq<char>,
    project_root: Seq<char>,
    import_map: Seq<(Seq<char>, Seq<char>)>,
    foreign_code: ContextCondition,
)
    requires
        a.options@ == edge_outer_options(mode, ty, project_path, project_root, import_map),
        a.rules.len() == 1,
        a.rules@[0].condition == foreign_code,
        a.rules@[0].options@ == edge_base_options(mode, ty, project_path, project_root, import_map),
        b.options@ == edge_outer_options(mode, ty, project_path, project_root, import_map),
        b.rules.len() == 1,
        b.rules@[0].condition == foreign_code,
        b.rules@[0].options@ == edge_base_options(mode, ty, project_path, project_root, import_map),
    ensures
        a.options@ == b.options@,
        a.rules.len() == b.rules.len(),
        a.rules@[0].condition == b.rules@[0].condition,
        a.rules@[0].options@ == b.rules@[0].options@,
{
}

} // verus!
