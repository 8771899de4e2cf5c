use crate::agent_core::behavior::{
    any_matches, texts_of, AnalyzerModule, BehaviorModule, BehaviorModuleError, CoordinatorModule,
    ExecutorModule, ImplementerModule, IterationDecisionModule,
};
use crate::agent_core::prompt::PromptTemplateManager;
use crate::agent_core::role::AgentRole;
use crate::events::{handlers_added, occurrences, Event, EventError, EventSystem};
use crate::state::doc_sync_state::DocSyncState;
use crate::str_map::StrMap;
use crate::text::join2;
use vstd::prelude::*;

verus! {

/// Why an agent could not do its work.
#[derive(Debug, Clone)]
pub enum AgentError {
    EventSystemError(EventError),
    BehaviorModuleError(BehaviorModuleError),
    StateError(String),
    InvalidPayload(String),
    ConfigurationError(String),
}

impl AgentError {
    /// The error as one line of text: what kind it is, then the detail.
    pub open spec fn text(&self) -> Seq<char> {
        match self {
            AgentError::EventSystemError(e) => "Event system error: "@ + e.text(),
            AgentError::BehaviorModuleError(e) => "Behavior module error: "@ + e.text(),
            AgentError::StateError(d) => "State error: "@ + d@,
            AgentError::InvalidPayload(d) => "Invalid event payload: "@ + d@,
            AgentError::ConfigurationError(d) => "Agent configuration error: "@ + d@,
        }
    }

    /// The error as one line of text.
    pub fn message(&self) -> (line: String)
        ensures
            line@ == self.text(),
    {
        match self {
            AgentError::EventSystemError(e) => {
                let inner = e.message();
                join2("Event system error: ", inner.as_str())
            },
            AgentError::BehaviorModuleError(e) => {
                let inner = e.message();
                join2("Behavior module error: ", inner.as_str())
            },
            AgentError::StateError(d) => join2("State error: ", d.as_str()),
            AgentError::InvalidPayload(d) => join2("Invalid event payload: ", d.as_str()),
            AgentError::ConfigurationError(d) => join2("Agent configuration error: ", d.as_str()),
        }
    }
}

/// What a behavior module works with while it handles one event: who the
/// agent is, the workflow's state as it was loaded, the current time, and
/// an outbox for the events to send on.
#[derive(Debug, Clone)]
pub struct AgentContext {
    pub agent_id: String,
    pub role: AgentRole,
    pub metadata: StrMap<String>,
    pub state: DocSyncState,
    pub outbox: Vec<Event>,
    pub now: u64,
}

/// One of the five kinds of behavior module.
#[derive(Debug, Clone)]
pub enum ModuleKind {
    Coordinator(CoordinatorModule),
    Analyzer(AnalyzerModule),
    Executor(ExecutorModule),
    Implementer(ImplementerModule),
    IterationDecision(IterationDecisionModule),
}

impl ModuleKind {
    /// The event patterns that the module answers to.
    pub open spec fn patterns(&self) -> Seq<Seq<char>> {
        match self {
            ModuleKind::Coordinator(m) => m.base().patterns(),
            ModuleKind::Analyzer(m) => m.base().patterns(),
            ModuleKind::Executor(m) => m.base().patterns(),
            ModuleKind::Implementer(m) => m.base().patterns(),
            ModuleKind::IterationDecision(m) => m.base().patterns(),
        }
    }

    /// The tools that the module declares it needs.
    pub open spec fn tools(&self) -> Seq<Seq<char>> {
        match self {
            ModuleKind::Coordinator(m) => m.base().tools(),
            ModuleKind::Analyzer(m) => m.base().tools(),
            ModuleKind::Executor(m) => m.base().tools(),
            ModuleKind::Implementer(m) => m.base().tools(),
            ModuleKind::IterationDecision(m) => m.base().tools(),
        }
    }

    /// Does the module answer to an event of the given name?
    pub open spec fn answers(&self, name: Seq<char>) -> bool {
        any_matches(self.patterns(), name)
    }

    /// What the module makes of `event`: a coordinator coordinates; the
    /// other kinds as such do nothing.
    pub open spec fn handled(
        &self,
        event: Event,
        before: AgentContext,
        after: AgentContext,
        done: Result<(), BehaviorModuleError>,
    ) -> bool {
        match self {
            ModuleKind::Coordinator(m) => m.handled(event, before, after, done),
            _ => done is Ok && after == before,
        }
    }
}

impl BehaviorModule for ModuleKind {
    fn process_event(&self, event: &Event, context: &mut AgentContext) -> (done: Result<
        (),
        BehaviorModuleError,
    >)
        ensures
            self.handled(*event, *old(context), *final(context), done),
    {
        match self {
            ModuleKind::Coordinator(m) => m.process_event(event, context),
            ModuleKind::Analyzer(m) => m.process_event(event, context),
            ModuleKind::Executor(m) => m.process_event(event, context),
            ModuleKind::Implementer(m) => m.process_event(event, context),
            ModuleKind::IterationDecision(m) => m.process_event(event, context),
        }
    }

    fn can_handle_event(&self, event: &Event) -> (hit: bool)
        ensures
            hit == self.answers(event.name_text()),
    {
        match self {
            ModuleKind::Coordinator(m) => m.can_handle_event(event),
            ModuleKind::Analyzer(m) => m.can_handle_event(event),
            ModuleKind::Executor(m) => m.can_handle_event(event),
            ModuleKind::Implementer(m) => m.can_handle_event(event),
            ModuleKind::IterationDecision(m) => m.can_handle_event(event),
        }
    }

    fn get_required_tools(&self) -> (tools: Vec<String>)
        ensures
            texts_of(tools@) == self.tools(),
    {
        match self {
            ModuleKind::Coordinator(m) => m.get_required_tools(),
            ModuleKind::Analyzer(m) => m.get_required_tools(),
            ModuleKind::Executor(m) => m.get_required_tools(),
            ModuleKind::Implementer(m) => m.get_required_tools(),
            ModuleKind::IterationDecision(m) => m.get_required_tools(),
        }
    }
}

/// What every agent offers.
pub trait Agent {
    /// The agent's identifier.
    fn id(&self) -> &str;

    /// The agent's role.
    fn role(&self) -> AgentRole;

    /// The names of the events that the agent wants to be told of, in the
    /// order in which it subscribed.
    fn initialize(&self) -> Result<Vec<String>, AgentError>;

    /// Handles `event` within `context`.
    fn process_event(&self, event: Event, context: &mut AgentContext) -> Result<(), AgentError>;

    /// The agent's notes about itself.
    fn metadata(&self) -> StrMap<String>;
}

/// The position of the first of `modules` that answers to `name`, or the
/// number of modules where none does.
pub open spec fn first_answering(modules: Seq<ModuleKind>, name: Seq<char>) -> int
    decreases modules.len(),
{
    if modules.len() == 0 {
        0
    } else if modules[0].answers(name) {
        0
    } else {
        1 + first_answering(modules.drop_first(), name)
    }
}

/// `first_answering` is the least position that answers, and lies within
/// the list exactly where some module answers.
pub proof fn lemma_first_answering(modules: Seq<ModuleKind>, name: Seq<char>)
    ensures
        0 <= first_answering(modules, name) <= modules.len(),
        first_answering(modules, name) < modules.len() ==> modules[first_answering(
            modules,
            name,
        )].answers(name),
        forall|i: int|
            0 <= i < first_answering(modules, name) ==> !(#[trigger] modules[i]).answers(name),
    decreases modules.len(),
{
    if modules.len() > 0 && !modules[0].answers(name) {
        let rest = modules.drop_first();
        lemma_first_answering(rest, name);
        assert forall|i: int| 0 <= i < first_answering(modules, name) implies !(
        #[trigger] modules[i]).answers(name) by {
            if i > 0 {
                assert(modules[i] == rest[i - 1]);
            }
        }
    }
}

/// An agent that hands each event to the first of its behavior modules
/// that answers to it.
#[derive(Debug, Clone)]
pub struct UnifiedAgent {
    id: String,
    role: AgentRole,
    behavior_modules: Vec<ModuleKind>,
    prompt_manager: PromptTemplateManager,
    metadata: StrMap<String>,
    event_subscriptions: Vec<String>,
}

impl UnifiedAgent {
    pub closed spec fn id_text(&self) -> Seq<char> {
        self.id@
    }

    pub closed spec fn role_of(&self) -> AgentRole {
        self.role
    }

    /// The behavior modules, in the order in which they were added.
    pub closed spec fn modules(&self) -> Seq<ModuleKind> {
        self.behavior_modules@
    }

    /// The event names subscribed to, in the order of subscription.
    pub closed spec fn subscriptions(&self) -> Seq<Seq<char>> {
        texts_of(self.event_subscriptions@)
    }

    /// The agent's notes about itself.
    pub closed spec fn notes(&self) -> Map<Seq<char>, Seq<char>> {
        self.metadata.texts()
    }

    /// The agent's prompt templates.
    pub closed spec fn prompts(&self) -> PromptTemplateManager {
        self.prompt_manager
    }

    /// An agent without modules, subscriptions, templates or notes.
    pub fn new(id: String, role: AgentRole) -> (agent: Self)
        ensures
            agent.id_text() == id@,
            agent.role_of() == role,
            agent.modules() == Seq::<ModuleKind>::empty(),
            agent.subscriptions() == Seq::<Seq<char>>::empty(),
            agent.notes() == Map::<Seq<char>, Seq<char>>::empty(),
            agent.prompts().templates() == Map::<Seq<char>, Seq<char>>::empty(),
    {
        let agent = UnifiedAgent {
            id,
            role,
            behavior_modules: Vec::new(),
            prompt_manager: PromptTemplateManager::new(),
            metadata: StrMap::new(),
            event_subscriptions: Vec::new(),
        };
        assert(agent.modules() =~= Seq::<ModuleKind>::empty());
        assert(agent.subscriptions() =~= Seq::<Seq<char>>::empty());
        assert(agent.notes() =~= Map::<Seq<char>, Seq<char>>::empty());
        agent
    }

    /// Puts `module` behind the modules already there.
    pub fn add_behavior_module(&mut self, module: ModuleKind)
        ensures
            final(self).modules() == old(self).modules().push(module),
            final(self).id_text() == old(self).id_text(),
            final(self).role_of() == old(self).role_of(),
            final(self).subscriptions() == old(self).subscriptions(),
            final(self).notes() == old(self).notes(),
            final(self).prompts() == old(self).prompts(),
    {
        self.behavior_modules.push(module);
    }

    /// Subscribes to the events of the given name.
    pub fn add_subscription(&mut self, event_name: &str)
        ensures
            final(self).subscriptions() == old(self).subscriptions().push(event_name@),
            final(self).id_text() == old(self).id_text(),
            final(self).role_of() == old(self).role_of(),
            final(self).modules() == old(self).modules(),
            final(self).notes() == old(self).notes(),
            final(self).prompts() == old(self).prompts(),
    {
        self.event_subscriptions.push(String::from_str(event_name));
        assert(self.subscriptions() =~= old(self).subscriptions().push(event_name@));
    }

    pub fn set_prompt_manager(&mut self, prompt_manager: PromptTemplateManager)
        ensures
            final(self).prompts() == prompt_manager,
            final(self).id_text() == old(self).id_text(),
            final(self).role_of() == old(self).role_of(),
            final(self).modules() == old(self).modules(),
            final(self).subscriptions() == old(self).subscriptions(),
            final(self).notes() == old(self).notes(),
    {
        self.prompt_manager = prompt_manager;
    }

    pub fn set_metadata(&mut self, key: &str, value: &str)
        ensures
            final(self).notes() == old(self).notes().insert(key@, value@),
            final(self).id_text() == old(self).id_text(),
            final(self).role_of() == old(self).role_of(),
            final(self).modules() == old(self).modules(),
            final(self).subscriptions() == old(self).subscriptions(),
            final(self).prompts() == old(self).prompts(),
    {
        self.metadata.set(key, value);
    }

    /// The agent's prompt templates.
    pub fn prompt_manager(&self) -> (manager: &PromptTemplateManager)
        ensures
            *manager == self.prompts(),
    {
        &self.prompt_manager
    }

    /// How many behavior modules the agent has.
    pub fn module_count(&self) -> (count: usize)
        ensures
            count == self.modules().len(),
    {
        self.behavior_modules.len()
    }

    /// A context for handling one event of the workflow whose loaded state
    /// is `state`, at time `now`, with an empty outbox.
    pub fn create_context(&self, state: DocSyncState, now: u64) -> (context: AgentContext)
        ensures
            context.agent_id@ == self.id_text(),
            context.role == self.role_of(),
            context.metadata.texts() == self.notes(),
            context.state == state,
            context.outbox@.len() == 0,
            context.now == now,
    {
        AgentContext {
            agent_id: self.id.clone(),
            role: self.role.clone(),
            metadata: self.metadata.duplicate(),
            state,
            outbox: Vec::new(),
            now,
        }
    }

    /// The position of the first module that answers to `event`.
    pub fn select_module(&self, event: &Event) -> (found: Option<usize>)
        ensures
            match found {
                Some(i) => i == first_answering(self.modules(), event.name_text()) && i
                    < self.modules().len(),
                None => first_answering(self.modules(), event.name_text()) == self.modules().len(),
            },
    {
        let n: usize = self.behavior_modules.len();
        let mut i: usize = 0;
        let ghost name = event.name_text();
        proof {
            lemma_first_answering(self.behavior_modules@, name);
        }
        while i < n
            invariant
                n == self.behavior_modules@.len(),
                name == event.name_text(),
                i <= n,
                forall|k: int| 0 <= k < i ==> !(#[trigger] self.behavior_modules@[k]).answers(name),
                0 <= first_answering(self.behavior_modules@, name) <= n,
                first_answering(self.behavior_modules@, name) < n
                    ==> self.behavior_modules@[first_answering(
                    self.behavior_modules@,
                    name,
                )].answers(name),
                forall|k: int|
                    0 <= k < first_answering(self.behavior_modules@, name) ==> !(
                    #[trigger] self.behavior_modules@[k]).answers(name),
            decreases n - i,
        {
            if self.behavior_modules[i].can_handle_event(event) {
                proof {
                    let f = first_answering(self.behavior_modules@, name);
                    if f < i {
                        assert(!self.behavior_modules@[f].answers(name));
                    }
                    if i < f {
                        assert(!self.behavior_modules@[i as int].answers(name));
                    }
                }
                return Some(i);
            }
            i += 1;
        }
        proof {
            let f = first_answering(self.behavior_modules@, name);
            if f < n {
                assert(!self.behavior_modules@[f].answers(name));
            }
        }
        None
    }
}

impl Agent for UnifiedAgent {
    fn id(&self) -> (id: &str)
        ensures
            id@ == self.id_text(),
    {
        self.id.as_str()
    }

    fn role(&self) -> (role: AgentRole)
        ensures
            role == self.role_of(),
    {
        self.role.clone()
    }

    fn initialize(&self) -> (names: Result<Vec<String>, AgentError>)
        ensures
            names matches Ok(list) && texts_of(list@) == self.subscriptions(),
    {
        let list = self.event_subscriptions.clone();
        assert(list@ =~= self.event_subscriptions@);
        Ok(list)
    }

    /// Hands `event` to the first module that answers to it. An event
    /// that no module answers to is dropped, which is no failure.
    fn process_event(&self, event: Event, context: &mut AgentContext) -> (done: Result<
        (),
        AgentError,
    >)
        ensures
            ({
                let k = first_answering(self.modules(), event.name_text());
                if k == self.modules().len() {
                    done is Ok && *final(context) == *old(context)
                } else {
                    exists|inner: Result<(), BehaviorModuleError>|
                        #![trigger self.modules()[k].handled(event, *old(context), *final(context), inner)]
                        self.modules()[k].handled(event, *old(context), *final(context), inner)
                            && match inner {
                            Ok(_) => done is Ok,
                            Err(e) => done == Err::<(), AgentError>(
                                AgentError::BehaviorModuleError(e),
                            ),
                        }
                }
            }),
    {
        match self.select_module(&event) {
            None => Ok(()),
            Some(i) => {
                let inner = self.behavior_modules[i].process_event(&event, context);
                assert(self.modules()[i as int].handled(event, *old(context), *context, inner));
                match inner {
                    Ok(_) => Ok(()),
                    Err(e) => Err(AgentError::BehaviorModuleError(e)),
                }
            },
        }
    }

    fn metadata(&self) -> (notes: StrMap<String>)
        ensures
            notes.texts() == self.notes(),
    {
        self.metadata.duplicate()
    }
}

impl UnifiedAgent {
    /// Registers on `event_system`, for each event name that the agent
    /// subscribed to and in the order of subscription, a handler that
    /// `make` gives for that name.
    pub fn register_event_handlers<H, M: Fn(&str) -> H>(
        &self,
        event_system: &mut EventSystem<H>,
        make: &M,
    ) -> (done: Result<(), AgentError>)
        requires
            forall|n: &str| call_requires(make, (n,)),
        ensures
            done is Ok,
            forall|name: Seq<char>|
                handlers_added(
                    old(event_system).handlers_of(name),
                    #[trigger] final(event_system).handlers_of(name),
                    occurrences(self.subscriptions(), name),
                    make,
                    name,
                ),
    {
        let n: usize = self.event_subscriptions.len();
        let mut names: Vec<&str> = Vec::new();
        let mut i: usize = 0;
        while i < n
            invariant
                n == self.event_subscriptions@.len(),
                i <= n,
                names@.len() == i,
                forall|j: int| 0 <= j < i ==> (#[trigger] names@[j])@ == self.event_subscriptions@[j]@,
            decreases n - i,
        {
            names.push(self.event_subscriptions[i].as_str());
            i += 1;
        }
        assert(names@.map_values(|n: &str| n@) =~= self.subscriptions());
        match event_system.register_all(&names, make) {
            Ok(_) => Ok(()),
            Err(e) => Err(AgentError::EventSystemError(e)),
        }
    }
}

} // verus!
