use forge_agents::agent_core::agent::{Agent, AgentError, ModuleKind};
use forge_agents::agent_core::behavior::BehaviorModule;
use forge_agents::agent_core::config::{
    AgentConfig, AgentsConfig, BehaviorModuleConfig, PromptTemplateConfig,
};
use forge_agents::agent_core::factory::AgentFactory;
use forge_agents::agent_core::prompt::{PromptError, PromptTemplateManager};
use forge_agents::agent_core::role::AgentRole;
use forge_agents::state::StateManager;
use forge_agents::str_map::StrMap;

fn module(kind: &str, params: &[(&str, &str)]) -> BehaviorModuleConfig {
    let mut map = StrMap::new();
    for (key, value) in params {
        map.set(key, value);
    }
    BehaviorModuleConfig { module_type: kind.to_string(), params: map }
}

fn agent(id: &str, modules: Vec<BehaviorModuleConfig>) -> AgentConfig {
    AgentConfig {
        id: id.to_string(),
        role: "DocRunner".to_string(),
        model: "m".to_string(),
        tool_supported: false,
        max_walker_depth: None,
        system_prompt: None,
        user_prompt: None,
        behavior_modules: modules,
        prompts: Vec::new(),
        tools: Vec::new(),
        subscribe: Vec::new(),
        metadata: StrMap::new(),
    }
}

#[test]
fn role_names_round_trip() {
    let fixed = [
        ("DocCoordinator", AgentRole::DocCoordinator),
        ("DocContentSyncer", AgentRole::DocContentSyncer),
        ("DocusaurusExpert", AgentRole::DocusaurusExpert),
        ("UiDesignExpert", AgentRole::UiDesignExpert),
        ("CssExpert", AgentRole::CssExpert),
        ("DocRunner", AgentRole::DocRunner),
        ("DocVerifier", AgentRole::DocVerifier),
        ("FixPlanner", AgentRole::FixPlanner),
        ("Implementer", AgentRole::Implementer),
        ("RefactoringGuru", AgentRole::RefactoringGuru),
        ("CodeReviewer", AgentRole::CodeReviewer),
        ("GitCommitter", AgentRole::GitCommitter),
    ];
    for (name, role) in fixed {
        assert_eq!(AgentRole::from_str(name), role);
        assert_eq!(role.name(), name);
    }
    assert_eq!(AgentRole::from_str("Librarian"), AgentRole::Custom("Librarian".to_string()));
    assert_eq!(AgentRole::from_str("doccoordinator"), AgentRole::Custom("doccoordinator".to_string()));
    assert_eq!(AgentRole::from_str(""), AgentRole::Custom(String::new()));
    assert_eq!(AgentRole::Custom("Librarian".to_string()).name(), "Librarian");
}

#[test]
fn agents_config_collects_agents_models_and_variables() {
    let mut config = AgentsConfig::new();
    assert!(config.agents.is_empty());
    assert!(config.get_agent_by_id("a").is_none());
    config.add_agent(agent("a", Vec::new()));
    let mut second = agent("b", Vec::new());
    second.model = "first-b".to_string();
    config.add_agent(second);
    let mut third = agent("b", Vec::new());
    third.model = "second-b".to_string();
    config.add_agent(third);
    assert_eq!(config.agents.len(), 3);
    assert_eq!(config.get_agent_by_id("a").map(|a| a.id.as_str()), Some("a"));
    assert_eq!(config.get_agent_by_id("b").map(|a| a.model.as_str()), Some("first-b"));
    assert!(config.get_agent_by_id("c").is_none());
    config.add_model("fast", "vendor/fast-1");
    config.add_model("fast", "vendor/fast-2");
    config.add_variable("root", "/srv");
    assert_eq!(config.models.get("fast"), Some(&"vendor/fast-2".to_string()));
    assert_eq!(config.variables.get("root"), Some(&"/srv".to_string()));
    assert!(AgentsConfig::default().agents.is_empty());
}

#[test]
fn templates_are_kept_and_combined() {
    let mut prompts = PromptTemplateManager::new();
    assert_eq!(prompts.base_path(), "templates");
    let prompts_moved = PromptTemplateManager::new().with_base_path("/etc/prompts");
    assert_eq!(prompts_moved.base_path(), "/etc/prompts");
    prompts.set_template("base", "You help.");
    prompts.set_template("tone", "Be kind.");
    prompts.set_template("format", "Use lists.");
    prompts.set_template("tone", "Be brief.");
    assert_eq!(prompts.get_template("tone").unwrap(), "Be brief.");
    match prompts.get_template("missing") {
        Err(PromptError::TemplateNotFound(name)) => assert_eq!(name, "missing"),
        other => panic!("expected a missing template, got {:?}", other),
    }
    assert_eq!(prompts.combine_templates("base", &[]).unwrap(), "You help.");
    assert_eq!(
        prompts.combine_templates("base", &["tone", "format"]).unwrap(),
        "You help.\n\nBe brief.\n\nUse lists."
    );
    assert_eq!(
        prompts.combine_templates("tone", &["tone"]).unwrap(),
        "Be brief.\n\nBe brief."
    );
    match prompts.combine_templates("base", &["tone", "nope", "also-nope"]) {
        Err(PromptError::TemplateNotFound(name)) => assert_eq!(name, "nope"),
        other => panic!("expected a missing template, got {:?}", other),
    }
    match prompts.combine_templates("nope", &["also-nope"]) {
        Err(PromptError::TemplateNotFound(name)) => assert_eq!(name, "nope"),
        other => panic!("expected a missing template, got {:?}", other),
    }
}

#[test]
fn prompt_errors_read_as_one_line() {
    assert_eq!(PromptError::TemplateNotFound("x".to_string()).message(), "Template not found: x");
    assert_eq!(PromptError::IoError("x".to_string()).message(), "IO error: x");
    assert_eq!(PromptError::RenderingError("x".to_string()).message(), "Template rendering error: x");
    assert_eq!(PromptError::InvalidFormat("x".to_string()).message(), "Invalid template format: x");
}

#[test]
fn prompt_manager_is_made_from_the_configuration() {
    let mut config = agent("a", Vec::new());
    config.system_prompt = Some("system text".to_string());
    config.user_prompt = Some("user text".to_string());
    config.prompts = vec![
        PromptTemplateConfig { name: "extra".to_string(), path: "extra.md".to_string() },
        PromptTemplateConfig { name: "user".to_string(), path: "override.md".to_string() },
    ];
    let prompts = AgentFactory::create_prompt_manager(&config).unwrap();
    assert_eq!(prompts.get_template("system").unwrap(), "system text");
    assert_eq!(prompts.get_template("user").unwrap(), "override.md");
    assert_eq!(prompts.get_template("extra").unwrap(), "extra.md");
    let bare = AgentFactory::create_prompt_manager(&agent("b", Vec::new())).unwrap();
    assert!(bare.get_template("system").is_err());
    assert!(bare.get_template("user").is_err());
}

#[test]
fn behavior_modules_are_made_by_kind() {
    let made = AgentFactory::create_behavior_module(&module(
        "coordinator",
        &[("map_docs-a", "docs-b"), ("other", "ignored"), ("map_", "empty"), ("mapx", "no")],
    ))
    .unwrap();
    match made {
        ModuleKind::Coordinator(m) => {
            assert_eq!(m.get_next_event("docs-a"), Some(&"docs-b".to_string()));
            assert_eq!(m.get_next_event(""), Some(&"empty".to_string()));
            assert_eq!(m.get_next_event("other"), None);
            assert_eq!(m.get_next_event("x"), None);
            assert!(m.is_feedback_loop_enabled());
            assert_eq!(m.get_required_tools().len(), 4);
        }
        other => panic!("expected a coordinator, got {:?}", other),
    }
    match AgentFactory::create_behavior_module(&module("analyzer", &[("analysis_depth", "deep")]))
        .unwrap()
    {
        ModuleKind::Analyzer(m) => assert_eq!(m.get_analysis_depth(), "deep"),
        other => panic!("expected an analyzer, got {:?}", other),
    }
    match AgentFactory::create_behavior_module(&module("analyzer", &[])).unwrap() {
        ModuleKind::Analyzer(m) => assert_eq!(m.get_analysis_depth(), "standard"),
        other => panic!("expected an analyzer, got {:?}", other),
    }
    assert!(matches!(
        AgentFactory::create_behavior_module(&module("executor", &[])).unwrap(),
        ModuleKind::Executor(_)
    ));
    match AgentFactory::create_behavior_module(&module("implementer", &[])) {
        Err(AgentError::ConfigurationError(detail)) => {
            assert_eq!(detail, "Unknown behavior module type: implementer")
        }
        other => panic!("expected a configuration error, got {:?}", other),
    }
}

#[test]
fn agent_is_made_from_its_configuration() {
    let mut config = agent("writer", vec![module("analyzer", &[]), module("executor", &[])]);
    config.role = "Chronicler".to_string();
    config.subscribe = vec!["docs".to_string(), "docs-verify".to_string()];
    config.metadata.set("team", "docs");
    config.system_prompt = Some("be exact".to_string());
    let made = AgentFactory::create_agent(&config).unwrap();
    assert_eq!(made.id(), "writer");
    assert_eq!(made.role(), AgentRole::Custom("Chronicler".to_string()));
    assert_eq!(made.initialize().unwrap(), vec!["docs".to_string(), "docs-verify".to_string()]);
    assert_eq!(made.metadata().get("team"), Some(&"docs".to_string()));
    assert_eq!(made.module_count(), 2);
    assert_eq!(made.prompt_manager().get_template("system").unwrap(), "be exact");

    let broken = agent(
        "broken",
        vec![module("executor", &[]), module("wizard", &[]), module("sorcerer", &[])],
    );
    match AgentFactory::create_agent(&broken) {
        Err(AgentError::ConfigurationError(detail)) => {
            assert_eq!(detail, "Unknown behavior module type: wizard")
        }
        other => panic!("expected a configuration error, got {:?}", other.map(|a| a.id().to_string())),
    }
}

#[test]
fn agents_that_cannot_be_made_are_passed_over() {
    let mut config = AgentsConfig::new();
    config.add_agent(agent("one", vec![module("coordinator", &[])]));
    config.add_agent(agent("two", vec![module("unknown", &[])]));
    config.add_agent(agent("three", Vec::new()));
    let agents = AgentFactory::agents_from_config(&config);
    let ids: Vec<&str> = agents.iter().map(|a| a.id()).collect();
    assert_eq!(ids, vec!["one", "three"]);
    assert!(AgentFactory::agents_from_config(&AgentsConfig::new()).is_empty());
}

#[test]
fn example_configuration_gives_one_coordinator() {
    let agents = AgentFactory::load_agents("ignored.yaml").unwrap();
    assert_eq!(agents.len(), 1);
    assert_eq!(agents[0].id(), "example-agent");
    assert_eq!(agents[0].role(), AgentRole::DocCoordinator);
    assert_eq!(agents[0].initialize().unwrap(), vec!["docs".to_string()]);
    assert_eq!(agents[0].module_count(), 1);
    assert_eq!(
        agents[0].prompt_manager().get_template("system").unwrap(),
        "You are a helpful assistant"
    );
}

#[test]
fn json_values_are_kept_by_key() {
    let mut store = StateManager::new();
    assert_eq!(store.get("a"), None);
    let mut object = serde_json::Map::new();
    object.insert("n".to_string(), serde_json::Value::from(3));
    object.insert("s".to_string(), serde_json::Value::from("text"));
    let value = serde_json::Value::Object(object);
    store.set("a", value.clone());
    store.set("b", serde_json::Value::from(true));
    assert_eq!(store.get("a"), Some(value.clone()));
    assert_eq!(store.get("a"), Some(value.clone()));
    assert_eq!(store.get("b"), Some(serde_json::Value::Bool(true)));
    store.set("b", serde_json::Value::Null);
    assert_eq!(store.get("b"), Some(serde_json::Value::Null));
    assert_eq!(store.remove("a"), Some(value));
    assert_eq!(store.remove("a"), None);
    assert_eq!(store.get("a"), None);
    store.clear();
    assert_eq!(store.get("b"), None);
    assert_eq!(StateManager::default().get("x"), None);
}

#[test]
fn templates_are_rendered_with_a_context() {
    let mut prompts = PromptTemplateManager::new();
    prompts.set_template("greeting", "Hello {{ name }}, welcome to {{ place }}. Bye {{ name }}!");
    let mut context = StrMap::new();
    context.set("name", "Ada");
    context.set("place", "{{ name }}'s office");
    context.set("unused", "x");
    assert_eq!(
        prompts.render("greeting", &context).unwrap(),
        "Hello Ada, welcome to {{ name }}'s office. Bye Ada!"
    );
    let mut other_order = StrMap::new();
    other_order.set("place", "{{ name }}'s office");
    other_order.set("name", "Ada");
    assert_eq!(
        prompts.render("greeting", &other_order).unwrap(),
        "Hello Ada, welcome to Ada's office. Bye Ada!"
    );
    assert_eq!(
        prompts.render("greeting", &StrMap::new()).unwrap(),
        "Hello {{ name }}, welcome to {{ place }}. Bye {{ name }}!"
    );
    prompts.set_template("tight", "{{name}} {{ name}} {{  name }}");
    assert_eq!(prompts.render("tight", &context).unwrap(), "{{name}} {{ name}} {{  name }}");
    match prompts.render("missing", &context) {
        Err(PromptError::TemplateNotFound(name)) => assert_eq!(name, "missing"),
        other => panic!("expected a missing template, got {:?}", other),
    }
}
