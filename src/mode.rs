use vstd::prelude::*;

verus! {

/// How the project is being compiled.
#[derive(Clone, Copy, Debug, PartialEq, Eq, Structural)]
pub enum NextMode {
    Development,
    Build,
}

/// The `NODE_ENV` spelling of a mode.
pub open spec fn node_env_spec(mode: NextMode) -> Seq<char> {
    match mode {
        NextMode::Development => "development"@,
        NextMode::Build => "production"@,
    }
}

impl NextMode {
    /// The value that `process.env.NODE_ENV` takes in this mode.
    pub fn node_env(&self) -> (r: String)
        ensures
            r@ == node_env_spec(*self),
    {
        match self {
            NextMode::Development => "development".to_owned(),
            NextMode::Build => "production".to_owned(),
        }
    }
}

/// The kind of server-side code that a module graph is compiled for.
#[derive(Clone, Copy, Debug, PartialEq, Eq, Structural)]
pub enum ServerContextType {
    Pages,
    PagesData,
    AppSSR,
    AppRSC,
    AppRoute,
    Middleware,
}

} // verus!
