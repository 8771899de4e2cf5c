use crate::str_map::StrMap;
use crate::text::str_eq;
use vstd::prelude::*;

verus! {

/// How one behavior module of an agent is set up. `module_type` is
/// "coordinator", "analyzer" or "executor".
#[derive(Debug, Clone)]
pub struct BehaviorModuleConfig {
    pub module_type: String,
    pub params: StrMap<String>,
}

/// A prompt template by name, and where it is kept.
#[derive(Debug, Clone)]
pub struct PromptTemplateConfig {
    pub name: String,
    pub path: String,
}

/// How one agent is set up.
#[derive(Debug, Clone)]
pub struct AgentConfig {
    pub id: String,
    pub role: String,
    pub model: String,
    pub tool_supported: bool,
    pub max_walker_depth: Option<u32>,
    pub system_prompt: Option<String>,
    pub user_prompt: Option<String>,
    pub behavior_modules: Vec<BehaviorModuleConfig>,
    pub prompts: Vec<PromptTemplateConfig>,
    pub tools: Vec<String>,
    pub subscribe: Vec<String>,
    pub metadata: StrMap<String>,
}

/// How the agents of an application are set up.
#[derive(Debug, Clone)]
pub struct AgentsConfig {
    pub agents: Vec<AgentConfig>,
    pub models: StrMap<String>,
    pub variables: StrMap<String>,
}

/// The position of the first agent in `agents` whose id is `id`, or the
/// length of `agents` where there is none.
pub open spec fn first_with_id(agents: Seq<AgentConfig>, id: Seq<char>) -> int
    decreases agents.len(),
{
    if agents.len() == 0 {
        0
    } else if agents[0].id@ == id {
        0
    } else {
        1 + first_with_id(agents.drop_first(), id)
    }
}

/// `first_with_id` is the least position with the id, and lies within the
/// list exactly where some agent has the id.
pub proof fn lemma_first_with_id(agents: Seq<AgentConfig>, id: Seq<char>)
    ensures
        0 <= first_with_id(agents, id) <= agents.len(),
        first_with_id(agents, id) < agents.len() ==> agents[first_with_id(agents, id)].id@ == id,
        forall|i: int| 0 <= i < first_with_id(agents, id) ==> (#[trigger] agents[i]).id@ != id,
    decreases agents.len(),
{
    if agents.len() > 0 && agents[0].id@ != id {
        let rest = agents.drop_first();
        lemma_first_with_id(rest, id);
        assert forall|i: int| 0 <= i < first_with_id(agents, id) implies (#[trigger] agents[i]).id@
            != id by {
            if i > 0 {
                assert(agents[i] == rest[i - 1]);
            }
        }
    }
}

impl AgentsConfig {
    /// A configuration without agents, models or variables.
    pub fn new() -> (config: Self)
        ensures
            config.agents@.len() == 0,
            config.models@ == Map::<Seq<char>, String>::empty(),
            config.variables@ == Map::<Seq<char>, String>::empty(),
    {
        AgentsConfig { agents: Vec::new(), models: StrMap::new(), variables: StrMap::new() }
    }

    /// Puts `agent` behind the agents already there.
    pub fn add_agent(&mut self, agent: AgentConfig)
        ensures
            final(self).agents@ == old(self).agents@.push(agent),
            final(self).models == old(self).models,
            final(self).variables == old(self).variables,
    {
        self.agents.push(agent);
    }

    /// Names a model: `name` stands for `identifier` from now on.
    pub fn add_model(&mut self, name: &str, identifier: &str)
        ensures
            final(self).models.texts() == old(self).models.texts().insert(name@, identifier@),
            final(self).agents == old(self).agents,
            final(self).variables == old(self).variables,
    {
        self.models.set(name, identifier);
    }

    /// Sets a variable: `name` has the value `value` from now on.
    pub fn add_variable(&mut self, name: &str, value: &str)
        ensures
            final(self).variables.texts() == old(self).variables.texts().insert(name@, value@),
            final(self).agents == old(self).agents,
            final(self).models == old(self).models,
    {
        self.variables.set(name, value);
    }

    /// The first agent whose id is `id`.
    pub fn get_agent_by_id(&self, id: &str) -> (found: Option<&AgentConfig>)
        ensures
            match found {
                Some(agent) => first_with_id(self.agents@, id@) < self.agents@.len() && *agent
                    == self.agents@[first_with_id(self.agents@, id@)],
                None => first_with_id(self.agents@, id@) == self.agents@.len(),
            },
            found is Some <==> exists|i: int|
                0 <= i < self.agents@.len() && (#[trigger] self.agents@[i]).id@ == id@,
    {
        let n: usize = self.agents.len();
        let mut i: usize = 0;
        proof {
            lemma_first_with_id(self.agents@, id@);
        }
        while i < n
            invariant
                n == self.agents@.len(),
                i <= n,
                forall|k: int| 0 <= k < i ==> (#[trigger] self.agents@[k]).id@ != id@,
                0 <= first_with_id(self.agents@, id@) <= self.agents@.len(),
                first_with_id(self.agents@, id@) < self.agents@.len() ==> self.agents@[first_with_id(
                    self.agents@,
                    id@,
                )].id@ == id@,
                forall|k: int|
                    0 <= k < first_with_id(self.agents@, id@) ==> (#[trigger] self.agents@[k]).id@
                        != id@,
            decreases n - i,
        {
            if str_eq(self.agents[i].id.as_str(), id) {
                proof {
                    let f = first_with_id(self.agents@, id@);
                    if f < i {
                        assert(self.agents@[f].id@ != id@);
                    }
                    if i < f {
                        assert(self.agents@[i as int].id@ != id@);
                    }
                }
                return Some(&self.agents[i]);
            }
            i += 1;
        }
        proof {
            let f = first_with_id(self.agents@, id@);
            if f < n {
                assert(self.agents@[f].id@ != id@);
            }
        }
        None
    }
}

impl Default for AgentsConfig {
    fn default() -> (config: Self)
        ensures
            config.agents@.len() == 0,
            config.models@ == Map::<Seq<char>, String>::empty(),
            config.variables@ == Map::<Seq<char>, String>::empty(),
    {
        AgentsConfig::new()
    }
}

} // verus!
