use crate::events::doc_sync_events::{DocSyncEvent, DocSyncPayload, VerificationCompletePayload};
use crate::str_map::StrMap;
use crate::text::{join2, join3, matches_pattern, pattern_matches};
use vstd::prelude::*;

pub mod doc_sync_events;

verus! {

pub const DOCS: &'static str = "docs";

pub const DOCS_ANALYZE_CONTENT: &'static str = "docs-analyze-content";

pub const DOCS_CONTENT_ANALYZED: &'static str = "docs-content-analyzed";

pub const DOCS_ANALYZE_DOCUSAURUS: &'static str = "docs-analyze-docusaurus";

pub const DOCS_DOCUSAURUS_ANALYZED: &'static str = "docs-docusaurus-analyzed";

pub const DOCS_ANALYZE_UI: &'static str = "docs-analyze-ui";

pub const DOCS_UI_ANALYZED: &'static str = "docs-ui-analyzed";

pub const DOCS_ANALYZE_CSS: &'static str = "docs-analyze-css";

pub const DOCS_CSS_ANALYZED: &'static str = "docs-css-analyzed";

pub const DOCS_EXECUTE: &'static str = "docs-execute";

pub const DOCS_EXECUTION_COMPLETE: &'static str = "docs-execution-complete";

pub const DOCS_VERIFY: &'static str = "docs-verify";

pub const DOCS_VERIFICATION_COMPLETE: &'static str = "docs-verification-complete";

pub const DOCS_COMPLETE: &'static str = "docs-complete";

/// Why the bus could not do its work. Each variant carries the detail as
/// text.
#[derive(Debug, Clone)]
pub enum EventError {
    HandlerRegistrationError(String),
    EmitError(String),
    HandlerError(String),
    InvalidPayload(String),
    StateError(String),
    SerializationError(String),
}

impl EventError {
    /// The error as one line of text: what kind it is, then the detail.
    pub open spec fn text(&self) -> Seq<char> {
        match self {
            EventError::HandlerRegistrationError(d) => "Failed to register event handler: "@ + d@,
            EventError::EmitError(d) => "Failed to emit event: "@ + d@,
            EventError::HandlerError(d) => "Event handler error: "@ + d@,
            EventError::InvalidPayload(d) => "Invalid event payload: "@ + d@,
            EventError::StateError(d) => "State error: "@ + d@,
            EventError::SerializationError(d) => "Serialization error: "@ + d@,
        }
    }

    /// The error as one line of text.
    pub fn message(&self) -> (line: String)
        ensures
            line@ == self.text(),
    {
        match self {
            EventError::HandlerRegistrationError(d) => join2(
                "Failed to register event handler: ",
                d.as_str(),
            ),
            EventError::EmitError(d) => join2("Failed to emit event: ", d.as_str()),
            EventError::HandlerError(d) => join2("Event handler error: ", d.as_str()),
            EventError::InvalidPayload(d) => join2("Invalid event payload: ", d.as_str()),
            EventError::StateError(d) => join2("State error: ", d.as_str()),
            EventError::SerializationError(d) => join2("Serialization error: ", d.as_str()),
        }
    }
}

/// What a verification reports under one name: a yes or no, a score in
/// thousandths, or something that is neither.
#[derive(Debug, Clone, Copy, PartialEq, Eq)]
pub enum Evidence {
    Flag(bool),
    Score(u32),
    Other,
}

/// What a free-form event carries, as far as the engine reads it. Every
/// other field travels in `fields` as text.
#[derive(Debug, Clone)]
pub struct EventPayload {
    pub correlation_id: Option<String>,
    pub verification_results: Option<StrMap<Evidence>>,
    pub continue_iteration: Option<bool>,
    pub iteration_number: Option<u32>,
    pub fields: StrMap<String>,
}

impl EventPayload {
    /// A payload that carries nothing.
    pub fn empty() -> (payload: Self)
        ensures
            payload.correlation_id.is_none(),
            payload.verification_results.is_none(),
            payload.continue_iteration.is_none(),
            payload.iteration_number.is_none(),
            payload.fields@ == Map::<Seq<char>, String>::empty(),
    {
        EventPayload {
            correlation_id: None,
            verification_results: None,
            continue_iteration: None,
            iteration_number: None,
            fields: StrMap::new(),
        }
    }
}

/// The evidence in a verification's findings: each category's status as a
/// flag under the category's name, and each score under the name of its
/// field. A score takes the place of a flag of the same name.
pub open spec fn evidence_in(payload: VerificationCompletePayload) -> Map<Seq<char>, Evidence> {
    payload.check_status@.map_values(|b: bool| Evidence::Flag(b)).insert(
        "content_quality"@,
        Evidence::Score(payload.quality_scores.content_quality),
    ).insert("structure_quality"@, Evidence::Score(payload.quality_scores.structure_quality)).insert(
        "ui_quality"@,
        Evidence::Score(payload.quality_scores.ui_quality),
    ).insert("css_quality"@, Evidence::Score(payload.quality_scores.css_quality)).insert(
        "technical_quality"@,
        Evidence::Score(payload.quality_scores.technical_quality),
    ).insert("overall_quality"@, Evidence::Score(payload.quality_scores.overall_quality))
}

/// Collects the evidence in a verification's findings.
pub fn evidence_of(payload: &VerificationCompletePayload) -> (evidence: StrMap<Evidence>)
    ensures
        evidence@ == evidence_in(*payload),
{
    let mut evidence: StrMap<Evidence> = StrMap::new();
    let n: usize = payload.check_status.len();
    let ghost flags = payload.check_status@;
    let ghost order = payload.check_status.keys();
    let mut i: usize = 0;
    while i < n
        invariant
            flags == payload.check_status@,
            order == payload.check_status.keys(),
            n == order.len(),
            forall|k: Seq<char>| flags.contains_key(k) <==> order.contains(k),
            i <= n,
            forall|k: Seq<char>|
                evidence@.contains_key(k) <==> (exists|j: int| 0 <= j < i && order[j] == k),
            forall|k: Seq<char>|
                evidence@.contains_key(k) ==> evidence@[k] == Evidence::Flag(flags[k]),
        decreases n - i,
    {
        let key = payload.check_status.key_at(i).clone();
        let flag = *payload.check_status.value_at(i);
        evidence.insert(key, Evidence::Flag(flag));
        proof {
            assert forall|k: Seq<char>|
                evidence@.contains_key(k) <==> (exists|j: int| 0 <= j < i + 1 && order[j] == k) by {
                if k == order[i as int] {
                    assert(0 <= i < i + 1 && order[i as int] == k);
                }
            }
        }
        i += 1;
    }
    proof {
        assert forall|k: Seq<char>| evidence@.contains_key(k) <==> flags.contains_key(k) by {
            if evidence@.contains_key(k) {
                let j = choose|j: int| 0 <= j < n && order[j] == k;
                assert(order[j] == k);
                assert(order.contains(k));
            }
            if flags.contains_key(k) {
                assert(order.contains(k));
                let j = choose|j: int| 0 <= j < order.len() && order[j] == k;
                assert(0 <= j < n && order[j] == k);
            }
        }
        assert(evidence@ =~= flags.map_values(|b: bool| Evidence::Flag(b)));
    }
    let scores = &payload.quality_scores;
    evidence.insert(String::from_str("content_quality"), Evidence::Score(scores.content_quality));
    evidence.insert(
        String::from_str("structure_quality"),
        Evidence::Score(scores.structure_quality),
    );
    evidence.insert(String::from_str("ui_quality"), Evidence::Score(scores.ui_quality));
    evidence.insert(String::from_str("css_quality"), Evidence::Score(scores.css_quality));
    evidence.insert(
        String::from_str("technical_quality"),
        Evidence::Score(scores.technical_quality),
    );
    evidence.insert(String::from_str("overall_quality"), Evidence::Score(scores.overall_quality));
    evidence
}

/// Something that happened: a typed event of the synchronization, or a
/// free-form one with a name of its own.
#[derive(Debug, Clone)]
pub enum Event {
    DocSync(DocSyncEvent),
    Custom { name: String, payload: EventPayload },
}

impl Event {
    /// The name under which handlers are found: for a typed event its
    /// type behind "doc_sync.", for a free-form one its own name.
    pub open spec fn name_text(&self) -> Seq<char> {
        match self {
            Event::DocSync(event) => "doc_sync."@ + event.event_type@,
            Event::Custom { name, .. } => name@,
        }
    }

    /// The name under which handlers are found.
    pub fn name(&self) -> (name: String)
        ensures
            name@ == self.name_text(),
    {
        match self {
            Event::DocSync(event) => join2("doc_sync.", event.event_type.as_str()),
            Event::Custom { name, .. } => name.clone(),
        }
    }

    /// The iteration number that a typed payload carries, if it has one.
    pub open spec fn iteration_in(payload: DocSyncPayload) -> Option<u32> {
        match payload {
            DocSyncPayload::PlanChanges(p) => Some(p.iteration_number),
            DocSyncPayload::ChangesPlanned(p) => Some(p.iteration_number),
            DocSyncPayload::ImplementChanges(p) => Some(p.iteration_number),
            DocSyncPayload::ImplementationComplete(p) => Some(p.iteration_number),
            DocSyncPayload::IterationDecision(p) => Some(p.iteration_number),
            DocSyncPayload::IterationComplete(p) => Some(p.iteration_count),
            _ => None,
        }
    }

    /// `payload` is what the event carries, as far as the engine reads it.
    /// Of a typed event: its workflow, the evidence of a verification, the
    /// decision and number of an iteration, and in `fields` its type, its
    /// sender, its receiver and the kind of its payload.
    pub open spec fn carries(&self, payload: EventPayload) -> bool {
        match self {
            Event::Custom { name, payload: own } => {
                &&& payload.correlation_id == own.correlation_id
                &&& payload.continue_iteration == own.continue_iteration
                &&& payload.iteration_number == own.iteration_number
                &&& payload.fields@ == own.fields@
                &&& match own.verification_results {
                    Some(e) => payload.verification_results matches Some(c) && c@ == e@,
                    None => payload.verification_results.is_none(),
                }
            },
            Event::DocSync(event) => {
                &&& payload.correlation_id matches Some(id) && id@ == event.correlation_id@
                &&& match event.payload {
                    DocSyncPayload::VerificationComplete(p) => payload.verification_results matches Some(
                        e,
                    ) && e@ == evidence_in(p),
                    _ => payload.verification_results.is_none(),
                }
                &&& payload.continue_iteration == match event.payload {
                    DocSyncPayload::IterationDecision(p) => Some(p.continue_iteration),
                    _ => None,
                }
                &&& payload.iteration_number == Event::iteration_in(event.payload)
                &&& payload.fields.texts() == map![
                    "event_type"@ => event.event_type@,
                    "source_agent"@ => event.source_agent@,
                    "target_agent"@ => event.target_agent@,
                    "type"@ => event.payload.kind_name(),
                ]
            },
        }
    }

    /// What the event carries, as far as the engine reads it.
    pub fn payload(&self) -> (payload: EventPayload)
        ensures
            self.carries(payload),
    {
        match self {
            Event::Custom { name, payload } => {
                let verification_results = match &payload.verification_results {
                    Some(e) => {
                        let c = e.clone();
                        assert(c@ =~= e@);
                        Some(c)
                    },
                    None => None,
                };
                EventPayload {
                    correlation_id: payload.correlation_id.clone(),
                    verification_results,
                    continue_iteration: payload.continue_iteration,
                    iteration_number: payload.iteration_number,
                    fields: payload.fields.duplicate(),
                }
            },
            Event::DocSync(event) => {
                let verification_results = match &event.payload {
                    DocSyncPayload::VerificationComplete(p) => Some(evidence_of(p)),
                    _ => None,
                };
                let continue_iteration = match &event.payload {
                    DocSyncPayload::IterationDecision(p) => Some(p.continue_iteration),
                    _ => None,
                };
                let iteration_number = match &event.payload {
                    DocSyncPayload::PlanChanges(p) => Some(p.iteration_number),
                    DocSyncPayload::ChangesPlanned(p) => Some(p.iteration_number),
                    DocSyncPayload::ImplementChanges(p) => Some(p.iteration_number),
                    DocSyncPayload::ImplementationComplete(p) => Some(p.iteration_number),
                    DocSyncPayload::IterationDecision(p) => Some(p.iteration_number),
                    DocSyncPayload::IterationComplete(p) => Some(p.iteration_count),
                    _ => None,
                };
                let mut fields: StrMap<String> = StrMap::new();
                fields.set("event_type", event.event_type.as_str());
                fields.set("source_agent", event.source_agent.as_str());
                fields.set("target_agent", event.target_agent.as_str());
                fields.set("type", event.payload.wire_name());
                assert(fields.texts() =~= map![
                    "event_type"@ => event.event_type@,
                    "source_agent"@ => event.source_agent@,
                    "target_agent"@ => event.target_agent@,
                    "type"@ => event.payload.kind_name(),
                ]);
                EventPayload {
                    correlation_id: Some(event.correlation_id.clone()),
                    verification_results,
                    continue_iteration,
                    iteration_number,
                    fields,
                }
            },
        }
    }
}

/// The detail of the error that reports a failed handler.
pub open spec fn handler_failure_text(event_name: Seq<char>, error: Seq<char>) -> Seq<char> {
    "Handler error for event "@ + event_name + ": "@ + error
}

/// Can `handler` take `event` and come back without a failure?
pub open spec fn accepts<H: Fn(&Event) -> Result<(), EventError>>(handler: H, event: &Event) -> bool {
    exists|r: Result<(), EventError>| r is Ok && #[trigger] call_ensures(handler, (event,), r)
}

/// Can `handler` take `event` and fail with `inner`?
pub open spec fn fails_with<H: Fn(&Event) -> Result<(), EventError>>(
    handler: H,
    event: &Event,
    inner: EventError,
) -> bool {
    call_ensures(handler, (event,), Err::<(), EventError>(inner))
}

/// `done` is what handing `event` to `handlers` in order may give: without
/// a failure every handler took the event; a failure is that of the first
/// handler that failed, wrapped, and the handlers before it took the event.
pub open spec fn emitted<H: Fn(&Event) -> Result<(), EventError>>(
    handlers: Seq<H>,
    event: &Event,
    done: Result<(), EventError>,
) -> bool {
    match done {
        Ok(_) => forall|i: int| 0 <= i < handlers.len() ==> #[trigger] accepts(handlers[i], event),
        Err(e) => exists|k: int, inner: EventError|
            {
                &&& 0 <= k < handlers.len()
                &&& #[trigger] fails_with(handlers[k], event, inner)
                &&& e matches EventError::HandlerError(d) && d@ == handler_failure_text(
                    event.name_text(),
                    inner.text(),
                )
                &&& forall|i: int| 0 <= i < k ==> #[trigger] accepts(handlers[i], event)
            },
    }
}

/// The handlers behind a list of borrowed handlers.
pub open spec fn derefs<H>(refs: Seq<&H>) -> Seq<H> {
    refs.map_values(|r: &H| *r)
}

/// Routes events to the handlers registered under their names. A bus as
/// it is made delivers an event to the handlers registered under exactly
/// the event's name. With wildcard subscriptions switched on, each
/// registered name is read as a pattern, and an event goes to the handlers
/// of every pattern that matches its name.
pub struct EventSystem<H> {
    handlers: StrMap<Vec<H>>,
    wildcards: bool,
}

impl<H> EventSystem<H> {
    /// The handlers registered under `name`, in the order of registration.
    pub closed spec fn handlers_of(&self, name: Seq<char>) -> Seq<H> {
        if self.handlers@.contains_key(name) {
            self.handlers@[name]@
        } else {
            Seq::empty()
        }
    }

    /// The names that handlers were registered under, each once, in the
    /// order in which they first came.
    pub closed spec fn names(&self) -> Seq<Seq<char>> {
        self.handlers.keys()
    }

    /// Are registered names read as patterns?
    pub closed spec fn wildcard_subscriptions(&self) -> bool {
        self.wildcards
    }

    /// The handlers of those of the first `count` registered names that,
    /// read as patterns, match `name`: name by name in the order of
    /// `names`, and for each name in the order of registration.
    pub open spec fn gathered(&self, count: nat, name: Seq<char>) -> Seq<H>
        decreases count,
    {
        if count == 0 {
            Seq::empty()
        } else {
            let before = self.gathered((count - 1) as nat, name);
            let pattern = self.names()[count - 1];
            if matches_pattern(pattern, name) {
                before + self.handlers_of(pattern)
            } else {
                before
            }
        }
    }

    /// The handlers that an event named `name` goes to, in the order in
    /// which they are called.
    pub open spec fn listeners(&self, name: Seq<char>) -> Seq<H> {
        if self.wildcard_subscriptions() {
            self.gathered(self.names().len(), name)
        } else {
            self.handlers_of(name)
        }
    }

    /// A bus without handlers that subscribes by exact name.
    pub fn new() -> (bus: Self)
        ensures
            !bus.wildcard_subscriptions(),
            bus.names() == Seq::<Seq<char>>::empty(),
            forall|name: Seq<char>| #[trigger] bus.handlers_of(name) == Seq::<H>::empty(),
    {
        EventSystem { handlers: StrMap::new(), wildcards: false }
    }

    /// Switches wildcard subscriptions on or off. The handlers stay as
    /// they are.
    pub fn set_wildcard_subscriptions(&mut self, enabled: bool)
        ensures
            final(self).wildcard_subscriptions() == enabled,
            final(self).names() == old(self).names(),
            forall|name: Seq<char>|
                #[trigger] final(self).handlers_of(name) == old(self).handlers_of(name),
    {
        self.wildcards = enabled;
    }

    /// Are registered names read as patterns?
    pub fn has_wildcard_subscriptions(&self) -> (enabled: bool)
        ensures
            enabled == self.wildcard_subscriptions(),
    {
        self.wildcards
    }

    /// Puts `handler` behind the handlers already registered under exactly
    /// `event_name`. The handlers of every other name stay as they are. A
    /// name that comes for the first time goes to the end of `names`.
    pub fn register_handler(&mut self, event_name: &str, handler: H) -> (done: Result<
        (),
        EventError,
    >)
        ensures
            done is Ok,
            final(self).handlers_of(event_name@) == old(self).handlers_of(event_name@).push(handler),
            forall|other: Seq<char>|
                other != event_name@ ==> #[trigger] final(self).handlers_of(other) == old(
                    self,
                ).handlers_of(other),
            old(self).names().contains(event_name@) ==> final(self).names() == old(self).names(),
            !old(self).names().contains(event_name@) ==> final(self).names() == old(
                self,
            ).names().push(event_name@),
            final(self).wildcard_subscriptions() == old(self).wildcard_subscriptions(),
    {
        let _ = self.handlers.len();
        let mut list = match self.handlers.insert(String::from_str(event_name), Vec::new()) {
            Some(list) => list,
            None => Vec::new(),
        };
        list.push(handler);
        let _ = self.handlers.insert(String::from_str(event_name), list);
        Ok(())
    }

    /// How many handlers are registered under exactly `event_name`.
    pub fn handler_count(&self, event_name: &str) -> (count: usize)
        ensures
            count == self.handlers_of(event_name@).len(),
    {
        match self.handlers.get(event_name) {
            Some(list) => list.len(),
            None => 0,
        }
    }

    /// The handlers that an event named `name` goes to.
    fn collect(&self, name: &str) -> (refs: Vec<&H>)
        ensures
            derefs(refs@) == self.listeners(name@),
    {
        let mut refs: Vec<&H> = Vec::new();
        if !self.wildcards {
            match self.handlers.get(name) {
                Some(list) => {
                    let m: usize = list.len();
                    let mut j: usize = 0;
                    while j < m
                        invariant
                            m == list@.len(),
                            j <= m,
                            derefs(refs@) == list@.subrange(0, j as int),
                        decreases m - j,
                    {
                        let ghost taken = refs@;
                        refs.push(&list[j]);
                        assert(derefs(refs@) =~= derefs(taken).push(list@[j as int]));
                        assert(derefs(refs@) =~= list@.subrange(0, j + 1));
                        j += 1;
                    }
                    assert(list@.subrange(0, m as int) =~= list@);
                },
                None => {
                    assert(derefs(refs@) =~= Seq::<H>::empty());
                },
            }
            return refs;
        }
        let n: usize = self.handlers.len();
        let mut i: usize = 0;
        assert(derefs(refs@) =~= self.gathered(0, name@));
        while i < n
            invariant
                n == self.names().len(),
                i <= n,
                derefs(refs@) == self.gathered(i as nat, name@),
            decreases n - i,
        {
            let pattern = self.handlers.key_at(i);
            let list = self.handlers.value_at(i);
            assert(self.handlers_of(self.names()[i as int]) == list@);
            if pattern_matches(pattern.as_str(), name) {
                let ghost before = derefs(refs@);
                let m: usize = list.len();
                let mut j: usize = 0;
                assert(before + list@.subrange(0, 0) =~= before);
                while j < m
                    invariant
                        m == list@.len(),
                        j <= m,
                        derefs(refs@) == before + list@.subrange(0, j as int),
                    decreases m - j,
                {
                    let ghost taken = refs@;
                    refs.push(&list[j]);
                    assert(derefs(refs@) =~= derefs(taken).push(list@[j as int]));
                    assert(derefs(refs@) =~= before + list@.subrange(0, j + 1));
                    j += 1;
                }
                assert(list@.subrange(0, m as int) =~= list@);
            }
            i += 1;
        }
        refs
    }

    /// Hands `event` to each of the handlers that it goes to, in order. The
    /// first handler that fails ends the round: the handlers behind it are
    /// not called, and its failure comes back wrapped. Without a failure,
    /// every handler was called.
    pub fn emit(&self, event: &Event) -> (done: Result<(), EventError>) where
        H: Fn(&Event) -> Result<(), EventError>,

        requires
            forall|i: int|
                0 <= i < self.listeners(event.name_text()).len() ==> call_requires(
                    #[trigger] self.listeners(event.name_text())[i],
                    (event,),
                ),
        ensures
            emitted(self.listeners(event.name_text()), event, done),
    {
        let event_name = event.name();
        let refs = self.collect(event_name.as_str());
        let ghost all = self.listeners(event.name_text());
        let n: usize = refs.len();
        let mut i: usize = 0;
        assert(derefs(refs@).len() == n);
        while i < n
            invariant
                derefs(refs@) == all,
                all == self.listeners(event.name_text()),
                event_name@ == event.name_text(),
                n == refs@.len(),
                n == all.len(),
                i <= n,
                forall|j: int| 0 <= j < all.len() ==> call_requires(#[trigger] all[j], (event,)),
                forall|j: int| 0 <= j < i ==> #[trigger] accepts(all[j], event),
            decreases n - i,
        {
            let handler = refs[i];
            assert(*handler == all[i as int]) by {
                assert(derefs(refs@)[i as int] == *refs@[i as int]);
            }
            let outcome = handler(event);
            assert(call_ensures(all[i as int], (event,), outcome));
            match outcome {
                Ok(_) => {
                    assert(accepts(all[i as int], event));
                },
                Err(inner) => {
                    let detail = inner.message();
                    let mut line = join3("Handler error for event ", event_name.as_str(), ": ");
                    line.append(detail.as_str());
                    assert(line@ =~= handler_failure_text(event.name_text(), inner.text()));
                    assert(fails_with(all[i as int], event, inner));
                    return Err(EventError::HandlerError(line));
                },
            }
            i += 1;
        }
        Ok(())
    }
}

/// How often `name` occurs in `names`.
pub open spec fn occurrences(names: Seq<Seq<char>>, name: Seq<char>) -> nat
    decreases names.len(),
{
    if names.len() == 0 {
        0
    } else {
        occurrences(names.drop_last(), name) + if names.last() == name {
            1nat
        } else {
            0nat
        }
    }
}

/// Can `make` give `handler` when asked for a handler of events named
/// `name`?
pub open spec fn made_for<H, M: Fn(&str) -> H>(make: M, name: Seq<char>, handler: H) -> bool {
    exists|n: &str| n@ == name && #[trigger] call_ensures(make, (n,), handler)
}

/// The handlers `after` are the handlers `before` with `added` more behind
/// them, each made by `make` for `name`.
pub open spec fn handlers_added<H, M: Fn(&str) -> H>(
    before: Seq<H>,
    after: Seq<H>,
    added: nat,
    make: M,
    name: Seq<char>,
) -> bool {
    &&& after.len() == before.len() + added
    &&& after.subrange(0, before.len() as int) == before
    &&& forall|j: int| before.len() <= j < after.len() ==> made_for(make, name, #[trigger] after[j])
}

/// The views of a list of names.
pub open spec fn name_views(names: Seq<&str>) -> Seq<Seq<char>> {
    names.map_values(|n: &str| n@)
}

impl<H> EventSystem<H> {
    /// Registers, for each of `event_names` in order, a handler that
    /// `make` gives for that name. A name that occurs twice gets two
    /// handlers. The handlers already registered stay in front.
    pub fn register_all<M: Fn(&str) -> H>(&mut self, event_names: &Vec<&str>, make: &M) -> (done:
        Result<(), EventError>)
        requires
            forall|n: &str| call_requires(make, (n,)),
        ensures
            done is Ok,
            final(self).wildcard_subscriptions() == old(self).wildcard_subscriptions(),
            forall|name: Seq<char>|
                handlers_added(
                    old(self).handlers_of(name),
                    #[trigger] final(self).handlers_of(name),
                    occurrences(name_views(event_names@), name),
                    make,
                    name,
                ),
    {
        let n: usize = event_names.len();
        let ghost names = name_views(event_names@);
        let mut i: usize = 0;
        proof {
            assert forall|name: Seq<char>|
                handlers_added(
                    old(self).handlers_of(name),
                    #[trigger] self.handlers_of(name),
                    occurrences(names.subrange(0, 0), name),
                    make,
                    name,
                ) by {
                assert(self.handlers_of(name).subrange(0, self.handlers_of(name).len() as int)
                    =~= self.handlers_of(name));
            }
        }
        while i < n
            invariant
                n == event_names@.len(),
                names == name_views(event_names@),
                i <= n,
                self.wildcard_subscriptions() == old(self).wildcard_subscriptions(),
                forall|n: &str| call_requires(make, (n,)),
                forall|name: Seq<char>|
                    handlers_added(
                        old(self).handlers_of(name),
                        #[trigger] self.handlers_of(name),
                        occurrences(names.subrange(0, i as int), name),
                        make,
                        name,
                    ),
            decreases n - i,
        {
            let ghost prev = *self;
            let event_name = event_names[i];
            let handler = make(event_name);
            assert(made_for(make, event_name@, handler));
            let _ = self.register_handler(event_name, handler);
            proof {
                assert(names.subrange(0, i + 1).drop_last() =~= names.subrange(0, i as int));
                assert(names.subrange(0, i + 1).last() == event_name@);
                assert forall|name: Seq<char>|
                    handlers_added(
                        old(self).handlers_of(name),
                        #[trigger] self.handlers_of(name),
                        occurrences(names.subrange(0, i + 1), name),
                        make,
                        name,
                    ) by {
                    let before = old(self).handlers_of(name);
                    let mid = prev.handlers_of(name);
                    let after = self.handlers_of(name);
                    assert(handlers_added(
                        before,
                        mid,
                        occurrences(names.subrange(0, i as int), name),
                        make,
                        name,
                    ));
                    if name == event_name@ {
                        assert(after == mid.push(handler));
                        assert(after.subrange(0, before.len() as int) =~= mid.subrange(
                            0,
                            before.len() as int,
                        ));
                        assert forall|j: int| before.len() <= j < after.len() implies made_for(
                            make,
                            name,
                            #[trigger] after[j],
                        ) by {
                            if j < mid.len() {
                                assert(after[j] == mid[j]);
                            }
                        }
                    } else {
                        assert(after == mid);
                    }
                }
            }
            i += 1;
        }
        proof {
            assert(names.subrange(0, n as int) =~= names);
        }
        Ok(())
    }
}

/// Registers the handlers that the synchronization needs on every bus:
/// none. The bus stays as it is.
pub fn register_doc_sync_event_handlers<H>(event_system: &mut EventSystem<H>)
    ensures
        *final(event_system) == *old(event_system),
{
}

} // verus!
