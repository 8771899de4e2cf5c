use crate::agent_core::agent::{AgentError, ModuleKind, UnifiedAgent};
use crate::agent_core::behavior::{
    analyzer_tools, coordinator_tools, executor_tools, texts_of, AnalyzerModule,
    CoordinatorModule, ExecutorModule,
};
use crate::agent_core::config::{AgentConfig, AgentsConfig, BehaviorModuleConfig, PromptTemplateConfig};
use crate::agent_core::prompt::PromptTemplateManager;
use crate::agent_core::role::AgentRole;
use crate::str_map::StrMap;
use crate::text::{is_prefix, join2, skip_chars, starts_with, str_eq};
use vstd::prelude::*;

verus! {

/// `templates` with each of `prompts` added in order: the prompt's name
/// stands for its path.
pub open spec fn with_prompts(
    templates: Map<Seq<char>, Seq<char>>,
    prompts: Seq<PromptTemplateConfig>,
) -> Map<Seq<char>, Seq<char>>
    decreases prompts.len(),
{
    if prompts.len() == 0 {
        templates
    } else {
        with_prompts(templates, prompts.drop_last()).insert(
            prompts.last().name@,
            prompts.last().path@,
        )
    }
}

/// The templates that an agent's configuration asks for: its system prompt
/// as "system" and its user prompt as "user", where it has them, and then
/// each named prompt.
pub open spec fn configured_templates(config: AgentConfig) -> Map<Seq<char>, Seq<char>> {
    let none = Map::<Seq<char>, Seq<char>>::empty();
    let system = match config.system_prompt {
        Some(p) => none.insert("system"@, p@),
        None => none,
    };
    let user = match config.user_prompt {
        Some(p) => system.insert("user"@, p@),
        None => system,
    };
    with_prompts(user, config.prompts@)
}

/// The mappings that a coordinator's parameters ask for: a parameter
/// `map_X` with value `Y` says that `Y` follows `X`.
pub open spec fn configured_mappings(params: Map<Seq<char>, Seq<char>>) -> Map<Seq<char>, Seq<char>> {
    Map::new(
        |event: Seq<char>| params.contains_key("map_"@ + event),
        |event: Seq<char>| params["map_"@ + event],
    )
}

/// Is `module_type` the name of a kind of module that can be configured?
pub open spec fn known_module_type(module_type: Seq<char>) -> bool {
    module_type == "coordinator"@ || module_type == "analyzer"@ || module_type == "executor"@
}

/// The detail of the error that refuses an unknown kind of module.
pub open spec fn unknown_module_text(module_type: Seq<char>) -> Seq<char> {
    "Unknown behavior module type: "@ + module_type
}

/// `module` is what the configuration `config` asks for.
pub open spec fn module_configured(module: ModuleKind, config: BehaviorModuleConfig) -> bool {
    match module {
        ModuleKind::Coordinator(m) => {
            &&& config.module_type@ == "coordinator"@
            &&& m.base().name_text() == config.module_type@
            &&& m.base().patterns() == Seq::<Seq<char>>::empty()
            &&& m.base().tools() == coordinator_tools()
            &&& m.feedback_enabled()
            &&& m.mappings() == configured_mappings(config.params.texts())
        },
        ModuleKind::Analyzer(m) => {
            &&& config.module_type@ == "analyzer"@
            &&& m.base().name_text() == config.module_type@
            &&& m.base().patterns() == Seq::<Seq<char>>::empty()
            &&& m.base().tools() == analyzer_tools()
            &&& m.depth() == if config.params.texts().contains_key("analysis_depth"@) {
                config.params.texts()["analysis_depth"@]
            } else {
                "standard"@
            }
        },
        ModuleKind::Executor(m) => {
            &&& config.module_type@ == "executor"@
            &&& m.base().name_text() == config.module_type@
            &&& m.base().patterns() == Seq::<Seq<char>>::empty()
            &&& m.base().tools() == executor_tools()
        },
        _ => false,
    }
}

/// The position of the first of `modules` whose kind is unknown, or the
/// length of `modules` where every kind is known.
pub open spec fn first_unknown(modules: Seq<BehaviorModuleConfig>) -> int
    decreases modules.len(),
{
    if modules.len() == 0 {
        0
    } else if !known_module_type(modules[0].module_type@) {
        0
    } else {
        1 + first_unknown(modules.drop_first())
    }
}

/// `first_unknown` is the least position with an unknown kind.
pub proof fn lemma_first_unknown(modules: Seq<BehaviorModuleConfig>)
    ensures
        0 <= first_unknown(modules) <= modules.len(),
        first_unknown(modules) < modules.len() ==> !known_module_type(
            modules[first_unknown(modules)].module_type@,
        ),
        forall|i: int|
            0 <= i < first_unknown(modules) ==> known_module_type(
                (#[trigger] modules[i]).module_type@,
            ),
    decreases modules.len(),
{
    if modules.len() > 0 && known_module_type(modules[0].module_type@) {
        let rest = modules.drop_first();
        lemma_first_unknown(rest);
        assert forall|i: int| 0 <= i < first_unknown(modules) implies known_module_type(
            (#[trigger] modules[i]).module_type@,
        ) by {
            if i > 0 {
                assert(modules[i] == rest[i - 1]);
            }
        }
    }
}

/// Can an agent be made from `config`? Only where the kind of each of its
/// modules is known.
pub open spec fn buildable(config: AgentConfig) -> bool {
    first_unknown(config.behavior_modules@) == config.behavior_modules@.len()
}

/// `agent` is what the configuration `config` asks for.
pub open spec fn agent_configured(agent: UnifiedAgent, config: AgentConfig) -> bool {
    &&& agent.id_text() == config.id@
    &&& agent.role_of().name_text() == config.role@
    &&& agent.subscriptions() == texts_of(config.subscribe@)
    &&& agent.notes() == config.metadata.texts()
    &&& agent.prompts().templates() == configured_templates(config)
    &&& agent.modules().len() == config.behavior_modules@.len()
    &&& forall|i: int|
        0 <= i < config.behavior_modules@.len() ==> module_configured(
            #[trigger] agent.modules()[i],
            config.behavior_modules@[i],
        )
}

/// Those of `configs` from which an agent can be made, in order.
pub open spec fn buildable_configs(configs: Seq<AgentConfig>) -> Seq<AgentConfig>
    decreases configs.len(),
{
    if configs.len() == 0 {
        Seq::empty()
    } else if buildable(configs.last()) {
        buildable_configs(configs.drop_last()).push(configs.last())
    } else {
        buildable_configs(configs.drop_last())
    }
}

/// `agents` are what `configs` ask for, one for one.
pub open spec fn agents_configured(agents: Seq<UnifiedAgent>, configs: Seq<AgentConfig>) -> bool {
    &&& agents.len() == configs.len()
    &&& forall|i: int| 0 <= i < agents.len() ==> agent_configured(#[trigger] agents[i], configs[i])
}

/// `agent` is the agent of the built-in example configuration: a document
/// coordinator with the id "example-agent" that subscribes to "docs", has
/// one system prompt, no notes, and one coordinator module without
/// mappings.
pub open spec fn is_example_agent(agent: UnifiedAgent) -> bool {
    &&& agent.id_text() == "example-agent"@
    &&& agent.role_of().name_text() == "DocCoordinator"@
    &&& agent.subscriptions() == seq!["docs"@]
    &&& agent.notes() == Map::<Seq<char>, Seq<char>>::empty()
    &&& agent.prompts().templates() == map!["system"@ => "You are a helpful assistant"@]
    &&& agent.modules().len() == 1
    &&& agent.modules()[0] matches ModuleKind::Coordinator(m)
    &&& m.base().name_text() == "coordinator"@
    &&& m.base().tools() == coordinator_tools()
    &&& m.base().patterns() == Seq::<Seq<char>>::empty()
    &&& m.mappings() == Map::<Seq<char>, Seq<char>>::empty()
    &&& m.feedback_enabled()
}

/// Makes agents from their configurations.
#[derive(Debug, Clone, Copy)]
pub struct AgentFactory;

impl AgentFactory {
    /// The prompt templates that `config` asks for.
    pub fn create_prompt_manager(config: &AgentConfig) -> (made: Result<
        PromptTemplateManager,
        AgentError,
    >)
        ensures
            made matches Ok(manager) && manager.templates() == configured_templates(*config)
                && manager.base() == "templates"@,
    {
        let mut prompt_manager = PromptTemplateManager::new();
        match &config.system_prompt {
            Some(system_prompt) => {
                prompt_manager.set_template("system", system_prompt.as_str());
            },
            None => {},
        }
        match &config.user_prompt {
            Some(user_prompt) => {
                prompt_manager.set_template("user", user_prompt.as_str());
            },
            None => {},
        }
        let ghost start = prompt_manager.templates();
        let n: usize = config.prompts.len();
        let mut i: usize = 0;
        while i < n
            invariant
                n == config.prompts@.len(),
                i <= n,
                prompt_manager.base() == "templates"@,
                prompt_manager.templates() == with_prompts(
                    start,
                    config.prompts@.subrange(0, i as int),
                ),
            decreases n - i,
        {
            prompt_manager.set_template(
                config.prompts[i].name.as_str(),
                config.prompts[i].path.as_str(),
            );
            proof {
                assert(config.prompts@.subrange(0, i + 1).drop_last() =~= config.prompts@.subrange(
                    0,
                    i as int,
                ));
            }
            i += 1;
        }
        proof {
            assert(config.prompts@.subrange(0, n as int) =~= config.prompts@);
        }
        Ok(prompt_manager)
    }

    /// The behavior module that `config` asks for. An unknown kind is
    /// refused.
    pub fn create_behavior_module(config: &BehaviorModuleConfig) -> (made: Result<
        ModuleKind,
        AgentError,
    >)
        ensures
            match made {
                Ok(module) => module_configured(module, *config),
                Err(e) => {
                    &&& !known_module_type(config.module_type@)
                    &&& e matches AgentError::ConfigurationError(d)
                    &&& d@ == unknown_module_text(config.module_type@)
                },
            },
    {
        let kind = config.module_type.as_str();
        if str_eq(kind, "coordinator") {
            let mut module = CoordinatorModule::new(kind);
            let n: usize = config.params.len();
            let ghost params = config.params.texts();
            let ghost order = config.params.keys();
            proof {
                reveal_strlit("map_");
            }
            let mut i: usize = 0;
            while i < n
                invariant
                    "map_"@.len() == 4,
                    order == config.params.keys(),
                    params == config.params.texts(),
                    n == order.len(),
                    order.no_duplicates(),
                    forall|k: Seq<char>| config.params@.contains_key(k) <==> order.contains(k),
                    i <= n,
                    module.base().name_text() == config.module_type@,
                    module.base().patterns() == Seq::<Seq<char>>::empty(),
                    module.base().tools() == coordinator_tools(),
                    module.feedback_enabled(),
                    forall|event: Seq<char>|
                        module.mappings().contains_key(event) <==> (exists|j: int|
                            0 <= j < i && order[j] == "map_"@ + event),
                    forall|event: Seq<char>|
                        module.mappings().contains_key(event) ==> module.mappings()[event]
                            == params["map_"@ + event],
                decreases n - i,
            {
                let key = config.params.key_at(i);
                let value = config.params.value_at(i);
                let ghost before = module.mappings();
                if starts_with(key.as_str(), "map_") {
                    let event = skip_chars(key.as_str(), 4);
                    proof {
                        assert(key@ =~= "map_"@ + event@);
                    }
                    module.add_coordination_mapping(event.as_str(), value.as_str());
                    proof {
                        assert forall|e: Seq<char>|
                            module.mappings().contains_key(e) <==> (exists|j: int|
                                0 <= j < i + 1 && order[j] == "map_"@ + e) by {
                            if e == event@ {
                                assert(0 <= i < i + 1 && order[i as int] == "map_"@ + e);
                            }
                            if module.mappings().contains_key(e) && e != event@ {
                                assert(before.contains_key(e));
                            }
                            if exists|j: int| 0 <= j < i + 1 && order[j] == "map_"@ + e {
                                let j = choose|j: int| 0 <= j < i + 1 && order[j] == "map_"@ + e;
                                if j == i {
                                    assert(("map_"@ + e).subrange(4, ("map_"@ + e).len() as int)
                                        =~= e);
                                    assert(("map_"@ + event@).subrange(
                                        4,
                                        ("map_"@ + event@).len() as int,
                                    ) =~= event@);
                                } else {
                                    assert(0 <= j < i && order[j] == "map_"@ + e);
                                }
                            }
                        }
                    }
                } else {
                    proof {
                        assert forall|e: Seq<char>|
                            module.mappings().contains_key(e) <==> (exists|j: int|
                                0 <= j < i + 1 && order[j] == "map_"@ + e) by {
                            if exists|j: int| 0 <= j < i + 1 && order[j] == "map_"@ + e {
                                let j = choose|j: int| 0 <= j < i + 1 && order[j] == "map_"@ + e;
                                if j == i {
                                    assert(("map_"@ + e).subrange(0, 4) =~= "map_"@);
                                    assert(is_prefix("map_"@, key@));
                                } else {
                                    assert(0 <= j < i && order[j] == "map_"@ + e);
                                }
                            }
                        }
                    }
                }
                i += 1;
            }
            proof {
                assert forall|event: Seq<char>|
                    module.mappings().contains_key(event) <==> params.contains_key(
                        "map_"@ + event,
                    ) by {
                    let k = "map_"@ + event;
                    if module.mappings().contains_key(event) {
                        let j = choose|j: int| 0 <= j < n && order[j] == k;
                        assert(order[j] == k);
                        assert(order.contains(k));
                    }
                    if params.contains_key(k) {
                        assert(config.params@.contains_key(k));
                        assert(order.contains(k));
                        let j = choose|j: int| 0 <= j < order.len() && order[j] == k;
                        assert(0 <= j < n && order[j] == k);
                    }
                }
                assert(module.mappings() =~= configured_mappings(params));
            }
            Ok(ModuleKind::Coordinator(module))
        } else if str_eq(kind, "analyzer") {
            let mut module = AnalyzerModule::new(kind);
            match config.params.get("analysis_depth") {
                Some(depth) => {
                    module.set_analysis_depth(depth.as_str());
                },
                None => {},
            }
            Ok(ModuleKind::Analyzer(module))
        } else if str_eq(kind, "executor") {
            let module = ExecutorModule::new(kind);
            Ok(ModuleKind::Executor(module))
        } else {
            Err(AgentError::ConfigurationError(join2("Unknown behavior module type: ", kind)))
        }
    }

    /// The agent that `config` asks for. A module of an unknown kind
    /// refuses the whole agent; the first such module is reported.
    pub fn create_agent(config: &AgentConfig) -> (made: Result<UnifiedAgent, AgentError>)
        ensures
            match made {
                Ok(agent) => buildable(*config) && agent_configured(agent, *config),
                Err(e) => {
                    &&& !buildable(*config)
                    &&& e matches AgentError::ConfigurationError(d)
                    &&& d@ == unknown_module_text(
                        config.behavior_modules@[first_unknown(
                            config.behavior_modules@,
                        )].module_type@,
                    )
                },
            },
    {
        let role = AgentRole::from_str(config.role.as_str());
        let mut agent = UnifiedAgent::new(config.id.clone(), role);
        let subscriptions: usize = config.subscribe.len();
        let mut s: usize = 0;
        while s < subscriptions
            invariant
                subscriptions == config.subscribe@.len(),
                s <= subscriptions,
                agent.id_text() == config.id@,
                agent.role_of().name_text() == config.role@,
                agent.modules() == Seq::<ModuleKind>::empty(),
                agent.notes() == Map::<Seq<char>, Seq<char>>::empty(),
                agent.subscriptions() == texts_of(config.subscribe@).subrange(0, s as int),
            decreases subscriptions - s,
        {
            agent.add_subscription(config.subscribe[s].as_str());
            assert(agent.subscriptions() =~= texts_of(config.subscribe@).subrange(0, s + 1));
            s += 1;
        }
        assert(agent.subscriptions() =~= texts_of(config.subscribe@));
        let notes: usize = config.metadata.len();
        let ghost wanted = config.metadata.texts();
        let ghost order = config.metadata.keys();
        let mut m: usize = 0;
        while m < notes
            invariant
                notes == order.len(),
                order == config.metadata.keys(),
                wanted == config.metadata.texts(),
                forall|k: Seq<char>| config.metadata@.contains_key(k) <==> order.contains(k),
                m <= notes,
                agent.id_text() == config.id@,
                agent.role_of().name_text() == config.role@,
                agent.modules() == Seq::<ModuleKind>::empty(),
                agent.subscriptions() == texts_of(config.subscribe@),
                forall|k: Seq<char>|
                    agent.notes().contains_key(k) <==> (exists|j: int| 0 <= j < m && order[j] == k),
                forall|k: Seq<char>| agent.notes().contains_key(k) ==> agent.notes()[k] == wanted[k],
            decreases notes - m,
        {
            let key = config.metadata.key_at(m);
            let value = config.metadata.value_at(m);
            agent.set_metadata(key.as_str(), value.as_str());
            proof {
                assert forall|k: Seq<char>|
                    agent.notes().contains_key(k) <==> (exists|j: int|
                        0 <= j < m + 1 && order[j] == k) by {
                    if k == order[m as int] {
                        assert(0 <= m < m + 1 && order[m as int] == k);
                    }
                }
            }
            m += 1;
        }
        proof {
            assert forall|k: Seq<char>| agent.notes().contains_key(k) <==> wanted.contains_key(
                k,
            ) by {
                if agent.notes().contains_key(k) {
                    let j = choose|j: int| 0 <= j < notes && order[j] == k;
                    assert(order[j] == k);
                    assert(order.contains(k));
                }
                if wanted.contains_key(k) {
                    assert(config.metadata@.contains_key(k));
                    assert(order.contains(k));
                    let j = choose|j: int| 0 <= j < order.len() && order[j] == k;
                    assert(0 <= j < notes && order[j] == k);
                }
            }
            assert(agent.notes() =~= wanted);
        }
        let prompt_manager = match AgentFactory::create_prompt_manager(config) {
            Ok(manager) => manager,
            Err(e) => {
                return Err(e);
            },
        };
        agent.set_prompt_manager(prompt_manager);
        let modules: usize = config.behavior_modules.len();
        let mut b: usize = 0;
        proof {
            lemma_first_unknown(config.behavior_modules@);
        }
        while b < modules
            invariant
                modules == config.behavior_modules@.len(),
                b <= modules,
                agent.id_text() == config.id@,
                agent.role_of().name_text() == config.role@,
                agent.subscriptions() == texts_of(config.subscribe@),
                agent.notes() == config.metadata.texts(),
                agent.prompts().templates() == configured_templates(*config),
                agent.modules().len() == b,
                forall|i: int|
                    0 <= i < b ==> module_configured(
                        #[trigger] agent.modules()[i],
                        config.behavior_modules@[i],
                    ),
                forall|i: int|
                    0 <= i < b ==> known_module_type(
                        (#[trigger] config.behavior_modules@[i]).module_type@,
                    ),
                0 <= first_unknown(config.behavior_modules@) <= modules,
                first_unknown(config.behavior_modules@) < modules ==> !known_module_type(
                    config.behavior_modules@[first_unknown(
                        config.behavior_modules@,
                    )].module_type@,
                ),
                forall|i: int|
                    0 <= i < first_unknown(config.behavior_modules@) ==> known_module_type(
                        (#[trigger] config.behavior_modules@[i]).module_type@,
                    ),
            decreases modules - b,
        {
            let module = match AgentFactory::create_behavior_module(&config.behavior_modules[b]) {
                Ok(module) => module,
                Err(e) => {
                    proof {
                        let f = first_unknown(config.behavior_modules@);
                        if f < b {
                            assert(known_module_type(config.behavior_modules@[f].module_type@));
                        }
                        if b < f {
                            assert(known_module_type(
                                config.behavior_modules@[b as int].module_type@,
                            ));
                        }
                    }
                    return Err(e);
                },
            };
            agent.add_behavior_module(module);
            b += 1;
        }
        proof {
            let f = first_unknown(config.behavior_modules@);
            if f < modules {
                assert(known_module_type(config.behavior_modules@[f].module_type@));
            }
        }
        Ok(agent)
    }

    /// The agents that `config` asks for, in order. A configuration from
    /// which no agent can be made is passed over.
    pub fn agents_from_config(config: &AgentsConfig) -> (agents: Vec<UnifiedAgent>)
        ensures
            agents_configured(agents@, buildable_configs(config.agents@)),
    {
        let mut agents: Vec<UnifiedAgent> = Vec::new();
        let n: usize = config.agents.len();
        let mut i: usize = 0;
        while i < n
            invariant
                n == config.agents@.len(),
                i <= n,
                agents_configured(agents@, buildable_configs(config.agents@.subrange(0, i as int))),
            decreases n - i,
        {
            proof {
                assert(config.agents@.subrange(0, i + 1).drop_last() =~= config.agents@.subrange(
                    0,
                    i as int,
                ));
            }
            let ghost before = agents@;
            match AgentFactory::create_agent(&config.agents[i]) {
                Ok(agent) => {
                    agents.push(agent);
                    proof {
                        let wanted = buildable_configs(config.agents@.subrange(0, i + 1));
                        assert forall|k: int| 0 <= k < agents@.len() implies agent_configured(
                            #[trigger] agents@[k],
                            wanted[k],
                        ) by {
                            if k < before.len() {
                                assert(agents@[k] == before[k]);
                            }
                        }
                    }
                },
                Err(_) => {},
            }
            i += 1;
        }
        proof {
            assert(config.agents@.subrange(0, n as int) =~= config.agents@);
        }
        agents
    }

    /// The one agent of the built-in example configuration: a document
    /// coordinator with the id "example-agent" that subscribes to "docs".
    pub fn load_agents(config_path: &str) -> (agents: Result<Vec<UnifiedAgent>, AgentError>)
        ensures
            agents matches Ok(list) && list@.len() == 1 && is_example_agent(list@[0]),
    {
        let mut behavior_modules: Vec<BehaviorModuleConfig> = Vec::new();
        behavior_modules.push(
            BehaviorModuleConfig {
                module_type: String::from_str("coordinator"),
                params: StrMap::new(),
            },
        );
        let mut tools: Vec<String> = Vec::new();
        tools.push(String::from_str("tool_forge_fs_read"));
        tools.push(String::from_str("tool_forge_fs_list"));
        let mut subscribe: Vec<String> = Vec::new();
        subscribe.push(String::from_str("docs"));
        let config = AgentConfig {
            id: String::from_str("example-agent"),
            role: String::from_str("DocCoordinator"),
            model: String::from_str("example/model"),
            tool_supported: true,
            max_walker_depth: Some(1024),
            system_prompt: Some(String::from_str("You are a helpful assistant")),
            user_prompt: None,
            behavior_modules,
            prompts: Vec::new(),
            tools,
            subscribe,
            metadata: StrMap::new(),
        };
        let mut agents: Vec<UnifiedAgent> = Vec::new();
        proof {
            lemma_first_unknown(config.behavior_modules@);
            assert(known_module_type(config.behavior_modules@[0].module_type@));
            assert(config.behavior_modules@.drop_first().len() == 0);
            assert(first_unknown(config.behavior_modules@.drop_first()) == 0);
            assert(first_unknown(config.behavior_modules@) == 1);
            assert(texts_of(config.subscribe@) =~= seq!["docs"@]);
            reveal_strlit("coordinator");
            reveal_strlit("analyzer");
            reveal_strlit("executor");
            assert("coordinator"@[0] == 'c' && "analyzer"@[0] == 'a' && "executor"@[0] == 'e');
            assert(config.prompts@.len() == 0);
            assert(configured_templates(config) =~= map![
                "system"@ => "You are a helpful assistant"@,
            ]);
            assert(config.metadata.texts() =~= Map::<Seq<char>, Seq<char>>::empty());
            assert(configured_mappings(config.behavior_modules@[0].params.texts())
                =~= Map::<Seq<char>, Seq<char>>::empty());
        }
        match AgentFactory::create_agent(&config) {
            Ok(agent) => {
                agents.push(agent);
            },
            Err(_) => {},
        }
        Ok(agents)
    }
}

} // verus!
