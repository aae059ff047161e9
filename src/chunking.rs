use crate::compile_time_info::Environment;
use crate::resolve::strings_view;
use vstd::prelude::*;
use vstd::string::StringExecFns;

verus! {

/// The debug switches of the process, by name.
#[derive(Clone, Debug, PartialEq, Eq)]
pub struct DebugFlags {
    pub enabled: Vec<String>,
}

impl DebugFlags {
    /// Whether the switch `name` is on.
    pub fn is_enabled(&self, name: &String) -> (r: bool)
        ensures
            r == strings_view(self.enabled@).contains(name@),
    {
        let mut i: usize = 0;
        while i < self.enabled.len()
            invariant
                0 <= i <= self.enabled.len(),
                forall|j: int| 0 <= j < i ==> self.enabled@[j]@ != name@,
            decreases self.enabled.len() - i,
        {
            if self.enabled[i].eq(name) {
                assert(strings_view(self.enabled@)[i as int] == name@);
                return true;
            }
            i = i + 1;
        }
        assert(!strings_view(self.enabled@).contains(name@)) by {
            if strings_view(self.enabled@).contains(name@) {
                let j = choose|j: int| 0 <= j < strings_view(self.enabled@).len() && strings_view(self.enabled@)[j] == name@;
                assert(self.enabled@[j]@ == name@);
            }
        }
        false
    }
}

/// `sub` below the directory `base`, where an empty `base` is the root.
pub open spec fn join_spec(base: Seq<char>, sub: Seq<char>) -> Seq<char> {
    if base.len() == 0 {
        sub
    } else {
        base + "/"@ + sub
    }
}

/// The path `sub` below the directory `base`.
pub fn join_path(base: &String, sub: &str) -> (r: String)
    ensures
        r@ == join_spec(base@, sub@),
{
    if base.as_str().is_empty() {
        sub.to_owned()
    } else {
        base.clone().concat("/").concat(sub)
    }
}

/// Where and how chunks of edge code are written.
#[derive(Clone, Debug, PartialEq, Eq)]
pub struct EdgeChunkingContext {
    pub context_path: String,
    /// The directory of the server-side output.
    pub output_root: String,
    /// The directory the chunks are written to.
    pub chunk_root: String,
    /// The directory that client assets are linked from.
    pub asset_root: String,
    pub environment: Environment,
    /// Whether chunks refer to their source maps.
    pub reference_chunk_source_maps: bool,
}

/// The chunking of edge code for the project at `project_path`: output goes to
/// `server/edge` below `node_root` and chunks to `server/edge/chunks` below it;
/// `client_assets_path` is where client assets are linked from, and chunks refer to
/// their source maps when the `edge` debug switch is on.
pub fn get_edge_chunking_context(
    project_path: &String,
    node_root: &String,
    client_assets_path: String,
    environment: Environment,
    debug: &DebugFlags,
) -> (r: EdgeChunkingContext)
    ensures
        r.context_path@ == project_path@,
        r.output_root@ == join_spec(node_root@, "server/edge"@),
        r.chunk_root@ == join_spec(node_root@, "server/edge/chunks"@),
        r.asset_root == client_assets_path,
        r.environment == environment,
        r.reference_chunk_source_maps == strings_view(debug.enabled@).contains("edge"@),
{
    EdgeChunkingContext {
        context_path: project_path.clone(),
        output_root: join_path(node_root, "server/edge"),
        chunk_root: join_path(node_root, "server/edge/chunks"),
        asset_root: client_assets_path,
        environment,
        reference_chunk_source_maps: debug.is_enabled(&"edge".to_owned()),
    }
}

/// Building the chunking context twice from the same inputs gives equal output
/// directories and the same source-map switch.
pub proof fn lemma_chunking_context_deterministic(
    a: EdgeChunkingContext,
    b: EdgeChunkingContext,
    project_path: Seq<char>,
    node_root: Seq<char>,
    debug: DebugFlags,
)
    requires
        a.context_path@ == project_path,
        a.output_root@ == join_spec(node_root, "server/edge"@),
        a.chunk_root@ == join_spec(node_root, "server/edge/chunks"@),
        a.reference_chunk_source_maps == strings_view(debug.enabled@).contains("edge"@),
        b.context_path@ == project_path,
        b.output_root@ == join_spec(node_root, "server/edge"@),
        b.chunk_root@ == join_spec(node_root, "server/edge/chunks"@),
        b.reference_chunk_source_maps == strings_view(debug.enabled@).contains("edge"@),
    ensures
        a.context_path@ == b.context_path@,
        a.output_root@ == b.output_root@,
        a.chunk_root@ == b.chunk_root@,
        a.reference_chunk_source_maps == b.reference_chunk_source_maps,
{
}

} // verus!
