//! How the editor's configuration files are layered: the global file, the
//! workspace (local) file over it, and the agent configuration files over
//! the agent defaults. These functions decide which layers count, in which
//! order, and which error is reported; reading, parsing and merging the TOML
//! is the caller's.
use vstd::prelude::*;

verus! {

/// A configuration file.
#[derive(Clone, Copy, Debug, PartialEq, Eq)]
pub enum Layer {
    /// The user's configuration file.
    Global,
    /// The workspace's configuration file.
    Local,
}

/// How reading and parsing one configuration file ended.
#[derive(Clone, Copy, Debug, PartialEq, Eq)]
pub enum LayerOutcome {
    /// It was read and parsed.
    Parsed,
    /// It was read but is not a valid configuration.
    BadConfig,
    /// It could not be read.
    Unreadable,
}

/// Which parsed files the configuration is built from.
#[derive(Clone, Copy, Debug, PartialEq, Eq)]
pub enum LayerPlan {
    /// The global file with the local file over it.
    Both,
    /// One file alone.
    Only(Layer),
}

/// Why the configuration cannot be built.
#[derive(Clone, Copy, Debug, PartialEq, Eq)]
pub enum LayerError {
    /// The file is not a valid configuration.
    BadConfig(Layer),
    /// The file could not be read.
    Unreadable(Layer),
}

/// Where the editor settings come from.
#[derive(Clone, Copy, Debug, PartialEq, Eq)]
pub enum EditorSource {
    /// The built-in defaults.
    Default,
    /// One file's editor table.
    From(Layer),
    /// The local file's editor table merged over the global one's.
    Merged,
}

/// The files a configuration is built from: both when both parse; an
/// invalid file is reported first, the local one before the global one;
/// else the one that parsed; when neither could be read, the global file's
/// error.
pub open spec fn layer_plan(global: LayerOutcome, local: LayerOutcome) -> Result<
    LayerPlan,
    LayerError,
> {
    match (global, local) {
        (LayerOutcome::Parsed, LayerOutcome::Parsed) => Ok(LayerPlan::Both),
        (_, LayerOutcome::BadConfig) => Err(LayerError::BadConfig(Layer::Local)),
        (LayerOutcome::BadConfig, _) => Err(LayerError::BadConfig(Layer::Global)),
        (LayerOutcome::Parsed, LayerOutcome::Unreadable) => Ok(LayerPlan::Only(Layer::Global)),
        (LayerOutcome::Unreadable, LayerOutcome::Parsed) => Ok(LayerPlan::Only(Layer::Local)),
        (LayerOutcome::Unreadable, LayerOutcome::Unreadable) => Err(
            LayerError::Unreadable(Layer::Global),
        ),
    }
}

/// Decides which files a configuration is built from.
pub fn config_layers(global: LayerOutcome, local: LayerOutcome) -> (r: Result<
    LayerPlan,
    LayerError,
>)
    ensures
        r == layer_plan(global, local),
{
    match (global, local) {
        (LayerOutcome::Parsed, LayerOutcome::Parsed) => Ok(LayerPlan::Both),
        (_, LayerOutcome::BadConfig) => Err(LayerError::BadConfig(Layer::Local)),
        (LayerOutcome::BadConfig, _) => Err(LayerError::BadConfig(Layer::Global)),
        (LayerOutcome::Parsed, LayerOutcome::Unreadable) => Ok(LayerPlan::Only(Layer::Global)),
        (LayerOutcome::Unreadable, LayerOutcome::Parsed) => Ok(LayerPlan::Only(Layer::Local)),
        (LayerOutcome::Unreadable, LayerOutcome::Unreadable) => Err(
            LayerError::Unreadable(Layer::Global),
        ),
    }
}

/// The layer `layer` has the item, by what each file has.
pub open spec fn has(layer: Layer, global_has: bool, local_has: bool) -> bool {
    match layer {
        Layer::Global => global_has,
        Layer::Local => local_has,
    }
}

/// The key maps merged over the default key map, in order.
pub open spec fn key_layers_of(plan: LayerPlan) -> Seq<Layer> {
    match plan {
        LayerPlan::Both => seq![Layer::Global, Layer::Local],
        LayerPlan::Only(l) => seq![l],
    }
}

/// The key maps merged over the default key map, in order.
pub fn key_layers(plan: LayerPlan) -> (r: Vec<Layer>)
    ensures
        r@ == key_layers_of(plan),
{
    let mut r: Vec<Layer> = Vec::new();
    match plan {
        LayerPlan::Both => {
            r.push(Layer::Global);
            r.push(Layer::Local);
        },
        LayerPlan::Only(l) => r.push(l),
    }
    assert(r@ =~= key_layers_of(plan));
    r
}

/// The file whose theme counts: the local one's, else the global one's.
pub open spec fn theme_layer_of(plan: LayerPlan, global_has: bool, local_has: bool) -> Option<
    Layer,
> {
    match plan {
        LayerPlan::Both => if local_has {
            Some(Layer::Local)
        } else if global_has {
            Some(Layer::Global)
        } else {
            None
        },
        LayerPlan::Only(l) => if has(l, global_has, local_has) {
            Some(l)
        } else {
            None
        },
    }
}

/// The file whose theme counts, by which files name one.
pub fn theme_layer(plan: LayerPlan, global_has: bool, local_has: bool) -> (r: Option<Layer>)
    ensures
        r == theme_layer_of(plan, global_has, local_has),
{
    match plan {
        LayerPlan::Both => if local_has {
            Some(Layer::Local)
        } else if global_has {
            Some(Layer::Global)
        } else {
            None
        },
        LayerPlan::Only(l) => {
            let h = match l {
                Layer::Global => global_has,
                Layer::Local => local_has,
            };
            if h {
                Some(l)
            } else {
                None
            }
        },
    }
}

/// Where the editor settings come from: the defaults when no counted file
/// has an editor table, the one that has it, or both merged.
pub open spec fn editor_source_of(plan: LayerPlan, global_has: bool, local_has: bool) -> EditorSource {
    match plan {
        LayerPlan::Both => if global_has && local_has {
            EditorSource::Merged
        } else if global_has {
            EditorSource::From(Layer::Global)
        } else if local_has {
            EditorSource::From(Layer::Local)
        } else {
            EditorSource::Default
        },
        LayerPlan::Only(l) => if has(l, global_has, local_has) {
            EditorSource::From(l)
        } else {
            EditorSource::Default
        },
    }
}

/// Where the editor settings come from, by which files have an editor table.
pub fn editor_source(plan: LayerPlan, global_has: bool, local_has: bool) -> (r: EditorSource)
    ensures
        r == editor_source_of(plan, global_has, local_has),
{
    match plan {
        LayerPlan::Both => if global_has && local_has {
            EditorSource::Merged
        } else if global_has {
            EditorSource::From(Layer::Global)
        } else if local_has {
            EditorSource::From(Layer::Local)
        } else {
            EditorSource::Default
        },
        LayerPlan::Only(l) => {
            let h = match l {
                Layer::Global => global_has,
                Layer::Local => local_has,
            };
            if h {
                EditorSource::From(l)
            } else {
                EditorSource::Default
            }
        },
    }
}

/// The agent files merged over the agent configuration already in force, in
/// order; nothing when there is no agent file, and the configuration stays
/// as it is.
pub open spec fn agent_layers_of(global: bool, local: bool) -> Option<Seq<Layer>> {
    if global && local {
        Some(seq![Layer::Global, Layer::Local])
    } else if global {
        Some(seq![Layer::Global])
    } else if local {
        Some(seq![Layer::Local])
    } else {
        None
    }
}

/// The agent files to merge, by which of them exist.
pub fn agent_layers(global: bool, local: bool) -> (r: Option<Vec<Layer>>)
    ensures
        match r {
            Some(v) => agent_layers_of(global, local) == Some(v@),
            None => agent_layers_of(global, local) is None,
        },
{
    let mut v: Vec<Layer> = Vec::new();
    if global {
        v.push(Layer::Global);
    }
    if local {
        v.push(Layer::Local);
    }
    if v.len() == 0 {
        None
    } else {
        proof {
            assert(v@ =~= agent_layers_of(global, local)->0);
        }
        Some(v)
    }
}

/// The part of an agent file that holds the agent settings.
#[derive(Clone, Copy, Debug, PartialEq, Eq)]
pub enum AgentSection {
    /// Its `[editor.agent]` table.
    EditorAgent,
    /// Its `[agent]` table.
    Agent,
    /// The whole file.
    Whole,
}

/// The agent settings of a file: `[editor.agent]` when it has one, else
/// `[agent]`, else the whole file.
pub open spec fn agent_section_of(has_editor_agent: bool, has_agent: bool) -> AgentSection {
    if has_editor_agent {
        AgentSection::EditorAgent
    } else if has_agent {
        AgentSection::Agent
    } else {
        AgentSection::Whole
    }
}

/// Where a file keeps the agent settings, by which tables it has.
pub fn agent_section(has_editor_agent: bool, has_agent: bool) -> (r: AgentSection)
    ensures
        r == agent_section_of(has_editor_agent, has_agent),
{
    if has_editor_agent {
        AgentSection::EditorAgent
    } else if has_agent {
        AgentSection::Agent
    } else {
        AgentSection::Whole
    }
}

/// Law: the local file always takes part when it parses, and always last:
/// a parsed local file is never left out of a configuration that builds,
/// and every plan ends with the layer that overrides.
pub proof fn law_local_layer_overrides(global: LayerOutcome, local: LayerOutcome)
    requires
        local == LayerOutcome::Parsed,
    ensures
        layer_plan(global, local) matches Ok(plan) ==> key_layers_of(plan).last() == Layer::Local,
        global != LayerOutcome::BadConfig ==> layer_plan(global, local) is Ok,
{
}

/// Law: every agent file that exists takes part in the merge, once, the
/// global one before the local one, and there is nothing to merge only when
/// neither exists.
pub proof fn law_every_agent_file_is_merged(global: bool, local: bool)
    ensures
        agent_layers_of(global, local) is None <==> !global && !local,
        agent_layers_of(global, local) matches Some(v) ==> {
            &&& (v.contains(Layer::Global) <==> global)
            &&& (v.contains(Layer::Local) <==> local)
            &&& v.len() == (if global { 1nat } else { 0nat }) + (if local { 1nat } else { 0nat })
            &&& global ==> v[0] == Layer::Global
            &&& local ==> v.last() == Layer::Local
        },
{
    if let Some(v) = agent_layers_of(global, local) {
        if global && local {
            assert(v[0] == Layer::Global && v[1] == Layer::Local);
        } else if global {
            assert(v[0] == Layer::Global);
        } else {
            assert(v[0] == Layer::Local);
        }
    }
}

/// Law: the theme and editor settings follow the layers: the local file's
/// theme wins whenever it counts and has one; a theme is only ever taken
/// from a counted file that has one; the editor settings are merged exactly
/// when both files count and both have them, come from one file only when
/// that file counts and has them, and are the defaults only when no counted
/// file has them.
pub proof fn law_later_layers_win(plan: LayerPlan, global_has: bool, local_has: bool)
    ensures
        (plan == LayerPlan::Both || plan == LayerPlan::Only(Layer::Local)) && local_has
            ==> theme_layer_of(plan, global_has, local_has) == Some(Layer::Local),
        theme_layer_of(plan, global_has, local_has) matches Some(l) ==> has(
            l,
            global_has,
            local_has,
        ) && (plan == LayerPlan::Both || plan == LayerPlan::Only(l)),
        (editor_source_of(plan, global_has, local_has) == EditorSource::Merged) == (plan
            == LayerPlan::Both && global_has && local_has),
        editor_source_of(plan, global_has, local_has) matches EditorSource::From(l) ==> has(
            l,
            global_has,
            local_has,
        ) && (plan == LayerPlan::Both || plan == LayerPlan::Only(l)),
        (editor_source_of(plan, global_has, local_has) == EditorSource::Default) == match plan {
            LayerPlan::Both => !global_has && !local_has,
            LayerPlan::Only(l) => has(l, global_has, local_has) == false,
        },
{
}

/// Law: the errors come in a fixed order: an invalid local file is always
/// reported, an invalid global file is reported unless the local one is
/// invalid too, and an unreadable file is reported only when neither file
/// parsed, and then it is the global one.
pub proof fn law_config_errors_in_order(global: LayerOutcome, local: LayerOutcome)
    ensures
        local == LayerOutcome::BadConfig ==> layer_plan(global, local) == Err::<LayerPlan, LayerError>(
            LayerError::BadConfig(Layer::Local),
        ),
        global == LayerOutcome::BadConfig && local != LayerOutcome::BadConfig ==> layer_plan(
            global,
            local,
        ) == Err::<LayerPlan, LayerError>(LayerError::BadConfig(Layer::Global)),
        layer_plan(global, local) matches Err(LayerError::Unreadable(l)) ==> l == Layer::Global
            && global == LayerOutcome::Unreadable && local == LayerOutcome::Unreadable,
        layer_plan(global, local) matches Ok(LayerPlan::Only(l)) ==> match l {
            Layer::Global => global == LayerOutcome::Parsed && local == LayerOutcome::Unreadable,
            Layer::Local => local == LayerOutcome::Parsed && global == LayerOutcome::Unreadable,
        },
        (layer_plan(global, local) == Ok::<LayerPlan, LayerError>(LayerPlan::Both)) == (global
            == LayerOutcome::Parsed && local == LayerOutcome::Parsed),
{
}

/// Law: the agent settings of a file are its `[editor.agent]` table
/// whenever it has one, its `[agent]` table only when it has no
/// `[editor.agent]`, and the whole file only when it has neither.
pub proof fn law_agent_section_prefers_editor_agent(has_editor_agent: bool, has_agent: bool)
    ensures
        has_editor_agent ==> agent_section_of(has_editor_agent, has_agent) == AgentSection::EditorAgent,
        (agent_section_of(has_editor_agent, has_agent) == AgentSection::Agent) == (!has_editor_agent
            && has_agent),
        (agent_section_of(has_editor_agent, has_agent) == AgentSection::Whole) == (!has_editor_agent
            && !has_agent),
{
}

} // verus!
