use indexmap::IndexMap;
use next_edge::chunking::{get_edge_chunking_context, join_path, DebugFlags};
use next_edge::compile_time_info::{get_edge_compile_time_info, Environment, ServerAddr};
use next_edge::defines::{
    builtin_table, defines, defines_from_pairs, same_path, CompileTimeDefineValue, CompileTimeDefines,
};
use next_edge::free_vars::{next_edge_free_vars, unsupported_api_names, FreeVarReference, FreeVarReferences};
use next_edge::mode::{NextMode, ServerContextType};
use next_edge::resolve::{
    edge_conditions, edge_plugins, get_edge_resolve_options_context, ContextCondition, ImportMap,
    ImportMapping, ResolvePluginKind,
};

const EDGE_MESSAGE: &str = "A Node.js API is used which is not supported in the Edge Runtime. Learn more: https://nextjs.org/docs/api-reference/edge-runtime";

fn env(pairs: &[(&str, &str)]) -> IndexMap<String, String> {
    let mut m = IndexMap::new();
    for (k, v) in pairs {
        m.insert(k.to_string(), v.to_string());
    }
    m
}

fn path(segments: &[&str]) -> Vec<String> {
    segments.iter().map(|s| s.to_string()).collect()
}

fn lookup<'a>(d: &'a CompileTimeDefines, segments: &[&str]) -> Option<&'a CompileTimeDefineValue> {
    let p = path(segments);
    d.entries.iter().find(|e| e.path == p).map(|e| &e.value)
}

fn free_var<'a>(t: &'a FreeVarReferences, name: &str) -> Vec<&'a FreeVarReference> {
    t.entries.iter().filter(|e| e.name == name).map(|e| &e.reference).collect()
}

fn all_conditions() -> Vec<ServerContextType> {
    vec![
        ServerContextType::Pages,
        ServerContextType::PagesData,
        ServerContextType::AppSSR,
        ServerContextType::AppRSC,
        ServerContextType::AppRoute,
        ServerContextType::Middleware,
    ]
}

#[test]
fn node_env_spellings() {
    assert_eq!(NextMode::Development.node_env(), "development");
    assert_eq!(NextMode::Build.node_env(), "production");
}

#[test]
fn development_without_env_has_exactly_the_builtins() {
    let d = defines(NextMode::Development, &env(&[]));
    assert_eq!(d.entries.len(), 4);
    assert_eq!(d.entries[0].path, path(&["process", "turbopack"]));
    assert_eq!(d.entries[0].value, CompileTimeDefineValue::Boolean(true));
    assert_eq!(d.entries[1].path, path(&["process", "env", "NEXT_RUNTIME"]));
    assert_eq!(d.entries[1].value, CompileTimeDefineValue::String("edge".to_string()));
    assert_eq!(d.entries[2].path, path(&["process", "env", "NODE_ENV"]));
    assert_eq!(d.entries[2].value, CompileTimeDefineValue::String("development".to_string()));
    assert_eq!(d.entries[3].path, path(&["process", "env", "TURBOPACK"]));
    assert_eq!(d.entries[3].value, CompileTimeDefineValue::Boolean(true));
    assert_eq!(d, builtin_table(NextMode::Development));
}

#[test]
fn build_uses_production_node_env() {
    let d = defines(NextMode::Build, &env(&[]));
    assert_eq!(
        lookup(&d, &["process", "env", "NODE_ENV"]),
        Some(&CompileTimeDefineValue::String("production".to_string()))
    );
}

#[test]
fn build_with_dotted_env_var() {
    let e = env(&[("FOO.BAR", "1")]);
    let d = defines(NextMode::Build, &e);
    assert_eq!(d.entries.len(), 5);
    assert_eq!(lookup(&d, &["FOO", "BAR"]), Some(&CompileTimeDefineValue::JSON("1".to_string())));

    let t = next_edge_free_vars(NextMode::Build, &"/project".to_string(), &e);
    assert_eq!(free_var(&t, "FOO"), vec![&FreeVarReference::Value(CompileTimeDefineValue::JSON("1".to_string()))]);
    for name in unsupported_api_names() {
        assert_eq!(free_var(&t, &name), vec![&FreeVarReference::Error(EDGE_MESSAGE.to_string())]);
    }
    assert!(matches!(free_var(&t, "Buffer")[..], [FreeVarReference::EcmaScriptModule { .. }]));
    assert!(matches!(free_var(&t, "process")[..], [FreeVarReference::EcmaScriptModule { .. }]));
}

#[test]
fn builtins_win_over_env_vars() {
    let e = env(&[
        ("process.env.NODE_ENV", "\"test\""),
        ("process.turbopack", "false"),
        ("process.env.NEXT_RUNTIME", "\"nodejs\""),
        ("process.env.TURBOPACK", "0"),
    ]);
    for mode in [NextMode::Development, NextMode::Build] {
        let d = defines(mode, &e);
        assert_eq!(d, builtin_table(mode));
    }
}

#[test]
fn first_env_value_wins_and_order_is_kept() {
    let pairs = vec![
        ("A.B".to_string(), "1".to_string()),
        ("C".to_string(), "2".to_string()),
        ("A.B".to_string(), "3".to_string()),
    ];
    let d = defines_from_pairs(NextMode::Development, &pairs);
    assert_eq!(d.entries.len(), 6);
    assert_eq!(d.entries[4].path, path(&["A", "B"]));
    assert_eq!(d.entries[4].value, CompileTimeDefineValue::JSON("1".to_string()));
    assert_eq!(d.entries[5].path, path(&["C"]));
    assert_eq!(d.entries[5].value, CompileTimeDefineValue::JSON("2".to_string()));
}

#[test]
fn env_map_entries_come_in_insertion_order() {
    let d = defines(NextMode::Development, &env(&[("Z", "1"), ("A", "2"), ("M", "3")]));
    assert_eq!(d.entries[4].path, path(&["Z"]));
    assert_eq!(d.entries[5].path, path(&["A"]));
    assert_eq!(d.entries[6].path, path(&["M"]));
}

#[test]
fn names_are_split_at_every_dot() {
    let d = defines(NextMode::Development, &env(&[("a..b", "1"), ("", "2"), ("x.", "3")]));
    assert_eq!(d.entries[4].path, path(&["a", "", "b"]));
    assert_eq!(d.entries[5].path, path(&[""]));
    assert_eq!(d.entries[6].path, path(&["x", ""]));
}

#[test]
fn same_path_compares_segments() {
    assert!(same_path(&path(&["a", "b"]), &path(&["a", "b"])));
    assert!(!same_path(&path(&["a", "b"]), &path(&["a", "c"])));
    assert!(!same_path(&path(&["a"]), &path(&["a", "b"])));
}

#[test]
fn development_has_no_diagnostics() {
    let t = next_edge_free_vars(NextMode::Development, &"/p".to_string(), &env(&[("setImmediate", "1")]));
    assert!(t.entries.iter().all(|e| !matches!(e.reference, FreeVarReference::Error(_))));
    assert_eq!(
        free_var(&t, "setImmediate"),
        vec![&FreeVarReference::Value(CompileTimeDefineValue::JSON("1".to_string()))]
    );
}

#[test]
fn build_diagnoses_every_unsupported_api() {
    let t = next_edge_free_vars(NextMode::Build, &"/p".to_string(), &env(&[("setImmediate", "1")]));
    let names = unsupported_api_names();
    assert_eq!(names.len(), 16);
    for name in &names {
        assert_eq!(free_var(&t, name), vec![&FreeVarReference::Error(EDGE_MESSAGE.to_string())]);
    }
    // process, setImmediate (replaced in place by its diagnostic), Buffer, then the other 15 APIs
    assert_eq!(t.entries.len(), 18);
    assert_eq!(t.entries[1].name, "setImmediate");
}

#[test]
fn polyfills_are_present_once_in_every_mode() {
    for mode in [NextMode::Development, NextMode::Build] {
        let t = next_edge_free_vars(mode, &"/app".to_string(), &env(&[("Buffer", "1"), ("process.env.X", "2")]));
        assert_eq!(
            free_var(&t, "Buffer"),
            vec![&FreeVarReference::EcmaScriptModule {
                request: "next/dist/compiled/buffer".to_string(),
                lookup_path: Some("/app".to_string()),
                export: Some("Buffer".to_string()),
            }]
        );
        assert_eq!(
            free_var(&t, "process"),
            vec![&FreeVarReference::EcmaScriptModule {
                request: "next/dist/build/polyfills/process".to_string(),
                lookup_path: Some("/app".to_string()),
                export: Some("default".to_string()),
            }]
        );
    }
}

#[test]
fn free_vars_key_defines_by_first_segment() {
    let t = next_edge_free_vars(NextMode::Development, &"/p".to_string(), &env(&[("FOO.BAR", "1"), ("FOO.BAZ", "2")]));
    assert_eq!(t.entries[0].name, "process");
    assert_eq!(t.entries[1].name, "FOO");
    assert_eq!(t.entries[1].reference, FreeVarReference::Value(CompileTimeDefineValue::JSON("2".to_string())));
    assert_eq!(t.entries[2].name, "Buffer");
    assert_eq!(t.entries.len(), 3);
}

#[test]
fn builders_are_deterministic() {
    let e = env(&[("FOO.BAR", "1"), ("X", "true")]);
    for mode in [NextMode::Development, NextMode::Build] {
        let addr = Some(ServerAddr { host: "127.0.0.1".to_string(), port: 3000 });
        let a = get_edge_compile_time_info(mode, &"/p".to_string(), addr.clone(), &e);
        let b = get_edge_compile_time_info(mode, &"/p".to_string(), addr, &e);
        assert_eq!(a, b);
        for ty in all_conditions() {
            let r1 = get_edge_resolve_options_context(
                &"/p".to_string(),
                ty,
                mode,
                Ok(ImportMap { mappings: vec![] }),
                Ok("/".to_string()),
                Ok(ContextCondition { in_directories: vec![] }),
            )
            .unwrap();
            let r2 = get_edge_resolve_options_context(
                &"/p".to_string(),
                ty,
                mode,
                Ok(ImportMap { mappings: vec![] }),
                Ok("/".to_string()),
                Ok(ContextCondition { in_directories: vec![] }),
            )
            .unwrap();
            assert_eq!(r1, r2);
        }
    }
    let flags = DebugFlags { enabled: vec![] };
    let env1 = Environment::EdgeWorker { server_addr: None };
    let c1 = get_edge_chunking_context(&"/p".to_string(), &"/n".to_string(), "/c".to_string(), env1.clone(), &flags);
    let c2 = get_edge_chunking_context(&"/p".to_string(), &"/n".to_string(), "/c".to_string(), env1, &flags);
    assert_eq!(c1, c2);
}

#[test]
fn compile_time_info_is_an_edge_worker() {
    let addr = ServerAddr { host: "localhost".to_string(), port: 8080 };
    let info = get_edge_compile_time_info(NextMode::Build, &"/p".to_string(), Some(addr.clone()), &env(&[]));
    assert_eq!(info.environment, Environment::EdgeWorker { server_addr: Some(addr) });
    assert_eq!(info.defines, defines(NextMode::Build, &env(&[])));
    assert_eq!(info.free_var_references, next_edge_free_vars(NextMode::Build, &"/p".to_string(), &env(&[])));
}

#[test]
fn react_server_condition_only_for_app_rsc() {
    for mode in [NextMode::Development, NextMode::Build] {
        for ty in all_conditions() {
            let c = edge_conditions(mode, ty);
            let mut expected = vec![mode.node_env(), "edge-light".to_string(), "worker".to_string()];
            if ty == ServerContextType::AppRSC {
                expected.push("react-server".to_string());
            }
            assert_eq!(c, expected);
        }
    }
    assert_eq!(
        edge_conditions(NextMode::Build, ServerContextType::AppRSC),
        vec!["production", "edge-light", "worker", "react-server"]
    );
}

#[test]
fn middleware_conditions_exclude_react_server() {
    let r = get_edge_resolve_options_context(
        &"/p".to_string(),
        ServerContextType::Middleware,
        NextMode::Development,
        Ok(ImportMap { mappings: vec![] }),
        Ok("/".to_string()),
        Ok(ContextCondition { in_directories: vec![] }),
    )
    .unwrap();
    assert!(!r.options.custom_conditions.contains(&"react-server".to_string()));
    assert_eq!(r.options.custom_conditions, vec!["development", "edge-light", "worker"]);
}

#[test]
fn resolve_options_with_foreign_code_rule() {
    let map = ImportMap {
        mappings: vec![ImportMapping { request: "react".to_string(), target: "next/dist/compiled/react".to_string() }],
    };
    let foreign = ContextCondition { in_directories: vec!["/p/node_modules".to_string()] };
    let r = get_edge_resolve_options_context(
        &"/p".to_string(),
        ServerContextType::AppRSC,
        NextMode::Build,
        Ok(map.clone()),
        Ok("/repo".to_string()),
        Ok(foreign.clone()),
    )
    .unwrap();
    let o = &r.options;
    assert_eq!(o.enable_node_modules, Some("/repo".to_string()));
    assert_eq!(o.import_map, Some(map));
    assert!(o.module && o.browser && o.enable_typescript && o.enable_react);
    assert_eq!(o.plugins, edge_plugins(&"/p".to_string()));
    let kinds: Vec<ResolvePluginKind> = o.plugins.iter().map(|p| p.kind).collect();
    assert_eq!(
        kinds,
        vec![
            ResolvePluginKind::ModuleFeatureReport,
            ResolvePluginKind::UnsupportedModules,
            ResolvePluginKind::NextSharedRuntime
        ]
    );
    assert!(o.plugins.iter().all(|p| p.project_path == "/p"));
    assert_eq!(r.rules.len(), 1);
    assert_eq!(r.rules[0].condition, foreign);
    let inner = &r.rules[0].options;
    assert!(!inner.enable_typescript && !inner.enable_react);
    assert_eq!(inner.custom_conditions, o.custom_conditions);
    assert_eq!(inner.import_map, o.import_map);
    assert_eq!(inner.plugins, o.plugins);
    assert_eq!(inner.enable_node_modules, o.enable_node_modules);
    assert!(inner.module && inner.browser);
}

#[test]
fn import_map_failure_is_passed_on() {
    let r = get_edge_resolve_options_context(
        &"/p".to_string(),
        ServerContextType::Pages,
        NextMode::Build,
        Err(anyhow::Error::msg("import map")),
        Err(anyhow::Error::msg("root")),
        Ok(ContextCondition { in_directories: vec![] }),
    );
    assert_eq!(r.unwrap_err().to_string(), "import map");
}

#[test]
fn root_failure_is_passed_on() {
    let r = get_edge_resolve_options_context(
        &"/p".to_string(),
        ServerContextType::Pages,
        NextMode::Build,
        Ok(ImportMap { mappings: vec![] }),
        Err(anyhow::Error::msg("root")),
        Err(anyhow::Error::msg("foreign")),
    );
    assert_eq!(r.unwrap_err().to_string(), "root");
}

#[test]
fn foreign_code_failure_is_passed_on() {
    let r = get_edge_resolve_options_context(
        &"/p".to_string(),
        ServerContextType::Pages,
        NextMode::Build,
        Ok(ImportMap { mappings: vec![] }),
        Ok("/".to_string()),
        Err(anyhow::Error::msg("foreign")),
    );
    assert_eq!(r.unwrap_err().to_string(), "foreign");
}

#[test]
fn import_map_duplicate_is_equal() {
    let m = ImportMap {
        mappings: vec![
            ImportMapping { request: "a".to_string(), target: "b".to_string() },
            ImportMapping { request: "c".to_string(), target: "d".to_string() },
        ],
    };
    assert_eq!(m.duplicate(), m);
}

#[test]
fn chunking_layout_under_node_root() {
    let flags = DebugFlags { enabled: vec!["edge".to_string()] };
    let c = get_edge_chunking_context(
        &"/p".to_string(),
        &"/p/.next".to_string(),
        "/p/.next/static/media".to_string(),
        Environment::EdgeWorker { server_addr: None },
        &flags,
    );
    assert_eq!(c.context_path, "/p");
    assert_eq!(c.output_root, "/p/.next/server/edge");
    assert_eq!(c.chunk_root, "/p/.next/server/edge/chunks");
    assert_eq!(c.asset_root, "/p/.next/static/media");
    assert_eq!(c.environment, Environment::EdgeWorker { server_addr: None });
    assert!(c.reference_chunk_source_maps);
}

#[test]
fn chunk_source_maps_follow_the_edge_switch() {
    let off = DebugFlags { enabled: vec!["node".to_string(), "edges".to_string()] };
    let c = get_edge_chunking_context(
        &"/p".to_string(),
        &"".to_string(),
        "/c".to_string(),
        Environment::EdgeWorker { server_addr: None },
        &off,
    );
    assert!(!c.reference_chunk_source_maps);
    assert_eq!(c.output_root, "server/edge");
    assert_eq!(c.chunk_root, "server/edge/chunks");
    assert!(off.is_enabled(&"node".to_string()));
    assert!(!off.is_enabled(&"edge".to_string()));
}

#[test]
fn join_path_inserts_one_separator() {
    assert_eq!(join_path(&"a/b".to_string(), "c"), "a/b/c");
    assert_eq!(join_path(&"".to_string(), "c/d"), "c/d");
}
