use crate::defines::{defines, defines_spec, CompileTimeDefines};
use crate::env_map::env_entries;
use crate::free_vars::{free_vars_spec, next_edge_free_vars, FreeVarReferences};
use crate::mode::NextMode;
use indexmap::IndexMap;
use vstd::prelude::*;

verus! {

/// The address a development server listens on.
#[derive(Clone, Debug, PartialEq, Eq)]
pub struct ServerAddr {
    pub host: String,
    pub port: u16,
}

/// The runtime that compiled code executes in.
#[derive(Clone, Debug, PartialEq, Eq)]
pub enum Environment {
    /// An edge worker, which may know the address of the server it runs beside.
    EdgeWorker { server_addr: Option<ServerAddr> },
}

/// Everything that is decided about edge code at compile time.
#[derive(Clone, Debug, PartialEq, Eq)]
pub struct CompileTimeInfo {
    pub environment: Environment,
    pub defines: CompileTimeDefines,
    pub free_var_references: FreeVarReferences,
}

/// The compile-time information of edge code in `mode`: an edge-worker environment
/// with `server_addr`, the definitions of [`defines`] and the free-variable table of
/// [`next_edge_free_vars`].
pub fn get_edge_compile_time_info(
    mode: NextMode,
    project_path: &String,
    server_addr: Option<ServerAddr>,
    define_env: &IndexMap<String, String>,
) -> (r: CompileTimeInfo)
    ensures
        r.environment == (Environment::EdgeWorker { server_addr }),
        r.defines@ == defines_spec(mode, env_entries(*define_env)),
        r.free_var_references@ == free_vars_spec(mode, project_path@, env_entries(*define_env)),
{
    CompileTimeInfo {
        environment: Environment::EdgeWorker { server_addr },
        defines: defines(mode, define_env),
        free_var_references: next_edge_free_vars(mode, project_path, define_env),
    }
}

/// Building the compile-time information twice from the same mode, project path and
/// environment variables gives equal definition tables and equal free-variable tables:
/// nothing but the inputs decides them.
pub proof fn lemma_compile_time_info_deterministic(
    a: CompileTimeInfo,
    b: CompileTimeInfo,
    mode: NextMode,
    project_path: Seq<char>,
    define_env: IndexMap<String, String>,
)
    requires
        a.defines@ == defines_spec(mode, env_entries(define_env)),
        a.free_var_references@ == free_vars_spec(mode, project_path, env_entries(define_env)),
        b.defines@ == defines_spec(mode, env_entries(define_env)),
        b.free_var_references@ == free_vars_spec(mode, project_path, env_entries(define_env)),
    ensures
        a.defines@ == b.defines@,
        a.free_var_references@ == b.free_var_references@,
{
}

} // verus!
