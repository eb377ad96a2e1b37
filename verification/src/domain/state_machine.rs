//! `StateMachine` entity: an "open" entity whose rules live in data. A
//! `Definition` lists the legal states, the allowed transitions, and which states
//! are terminal; the machine's invariant is checked at run time against that data.
use crate::error::{DomainError, DomainErrorView};
use crate::text::same_text;
use vstd::prelude::*;
use vstd::string::StringExecFns;

verus! {

/// JSON values are carried through the machine without being inspected.
#[verifier::external_type_specification]
#[verifier::external_body]
pub struct ExJsonValue(serde_json::Value);

/// `Clone::clone` of `serde_json::Value` (derived by serde_json): the copy is
/// equal to the value it was made from.
pub assume_specification[ <serde_json::Value as Clone>::clone ](v: &serde_json::Value) -> (r:
    serde_json::Value)
    ensures
        r == *v,
;

/// A state of the machine. Identity is its `name`; `terminal` states have no way out.
#[derive(Debug, Clone)]
pub struct State {
    pub name: String,
    pub terminal: bool,
    pub description: Option<String>,
}

/// The mathematical value of an optional text.
pub open spec fn opt_text(o: Option<String>) -> Option<Seq<char>> {
    match o {
        Some(s) => Some(s@),
        None => None,
    }
}

/// The mathematical value of a `State`.
pub struct StateView {
    pub name: Seq<char>,
    pub terminal: bool,
    pub description: Option<Seq<char>>,
}

impl View for State {
    type V = StateView;

    open spec fn view(&self) -> StateView {
        StateView { name: self.name@, terminal: self.terminal, description: opt_text(self.description) }
    }
}

/// A directed edge `from -> to`, with optional context: `criterion` describes the
/// condition that gates the edge (free text), `description` documents it.
#[derive(Debug, Clone)]
pub struct Transition {
    pub from: String,
    pub to: String,
    pub criterion: Option<String>,
    pub description: Option<String>,
}

/// The mathematical value of a `Transition`.
pub struct TransitionView {
    pub from: Seq<char>,
    pub to: Seq<char>,
    pub criterion: Option<Seq<char>>,
    pub description: Option<Seq<char>>,
}

impl View for Transition {
    type V = TransitionView;

    open spec fn view(&self) -> TransitionView {
        TransitionView {
            from: self.from@,
            to: self.to@,
            criterion: opt_text(self.criterion),
            description: opt_text(self.description),
        }
    }
}

/// The rules of a machine, as data. Validated once when the machine is defined.
#[derive(Debug, Clone)]
pub struct Definition {
    pub states: Vec<State>,
    pub transitions: Vec<Transition>,
    pub initial: String,
}

/// The mathematical value of a `Definition`.
pub struct DefinitionView {
    pub states: Seq<StateView>,
    pub transitions: Seq<TransitionView>,
    pub initial: Seq<char>,
}

impl View for Definition {
    type V = DefinitionView;

    open spec fn view(&self) -> DefinitionView {
        DefinitionView {
            states: self.states@.map_values(|s: State| s@),
            transitions: self.transitions@.map_values(|t: Transition| t@),
            initial: self.initial@,
        }
    }
}

/// The first state of `states`, from index `i` on, whose name is `name`.
pub open spec fn lookup_from(states: Seq<StateView>, name: Seq<char>, i: int) -> Option<StateView>
    decreases states.len() - i,
{
    if i < 0 || i >= states.len() {
        None
    } else if states[i].name == name {
        Some(states[i])
    } else {
        lookup_from(states, name, i + 1)
    }
}

/// The state that `name` designates in `d`: the first one declared under that name.
pub open spec fn state_named(d: DefinitionView, name: Seq<char>) -> Option<StateView> {
    lookup_from(d.states, name, 0)
}

/// `d` declares a state called `name`.
pub open spec fn declares(d: DefinitionView, name: Seq<char>) -> bool {
    exists|i: int| 0 <= i < d.states.len() && #[trigger] d.states[i].name == name
}

/// The state called `name` is declared and terminal.
pub open spec fn is_terminal_in(d: DefinitionView, name: Seq<char>) -> bool {
    match state_named(d, name) {
        Some(s) => s.terminal,
        None => false,
    }
}

/// `d` has an edge from `from` to `to`.
pub open spec fn allows(d: DefinitionView, from: Seq<char>, to: Seq<char>) -> bool {
    exists|i: int|
        0 <= i < d.transitions.len() && #[trigger] d.transitions[i].from == from
            && d.transitions[i].to == to
}

/// The first undeclared name among the edges of `d` from index `i` on, each edge
/// read source first.
pub open spec fn first_unknown_edge(d: DefinitionView, i: int) -> Option<Seq<char>>
    decreases d.transitions.len() - i,
{
    if i < 0 || i >= d.transitions.len() {
        None
    } else if !declares(d, d.transitions[i].from) {
        Some(d.transitions[i].from)
    } else if !declares(d, d.transitions[i].to) {
        Some(d.transitions[i].to)
    } else {
        first_unknown_edge(d, i + 1)
    }
}

/// The first undeclared name that `d` references: its initial state, then each edge.
pub open spec fn first_unknown(d: DefinitionView) -> Option<Seq<char>> {
    if !declares(d, d.initial) {
        Some(d.initial)
    } else {
        first_unknown_edge(d, 0)
    }
}

/// A definition is well-formed when every state name it references is declared.
pub open spec fn well_formed(d: DefinitionView) -> bool {
    &&& declares(d, d.initial)
    &&& forall|i: int|
        0 <= i < d.transitions.len() ==> declares(d, #[trigger] d.transitions[i].from) && declares(
            d,
            d.transitions[i].to,
        )
}

proof fn lemma_lookup_from(states: Seq<StateView>, name: Seq<char>, i: int)
    requires
        0 <= i,
    ensures
        lookup_from(states, name, i) is Some <==> exists|j: int|
            i <= j < states.len() && #[trigger] states[j].name == name,
        lookup_from(states, name, i) matches Some(s) ==> s.name == name,
    decreases states.len() - i,
{
    if i < states.len() {
        lemma_lookup_from(states, name, i + 1);
        if lookup_from(states, name, i) is Some {
            if states[i].name != name {
                let j = choose|j: int| i + 1 <= j < states.len() && #[trigger] states[j].name == name;
                assert(i <= j < states.len() && states[j].name == name);
            }
        }
    }
}

/// A name is declared exactly when it designates a state, and that state bears the name.
pub proof fn lemma_state_named(d: DefinitionView, name: Seq<char>)
    ensures
        state_named(d, name) is Some <==> declares(d, name),
        state_named(d, name) matches Some(s) ==> s.name == name,
{
    lemma_lookup_from(d.states, name, 0);
}

spec fn edges_declared_from(d: DefinitionView, i: int) -> bool {
    forall|j: int|
        i <= j < d.transitions.len() ==> declares(d, #[trigger] d.transitions[j].from) && declares(
            d,
            d.transitions[j].to,
        )
}

proof fn lemma_first_unknown_edge(d: DefinitionView, i: int)
    requires
        0 <= i,
    ensures
        first_unknown_edge(d, i) is None <==> edges_declared_from(d, i),
    decreases d.transitions.len() - i,
{
    if i < d.transitions.len() {
        lemma_first_unknown_edge(d, i + 1);
        let t = d.transitions[i];
        if declares(d, t.from) && declares(d, t.to) {
            assert(first_unknown_edge(d, i) == first_unknown_edge(d, i + 1));
            if edges_declared_from(d, i) {
                assert forall|j: int| i + 1 <= j < d.transitions.len() implies declares(
                    d,
                    #[trigger] d.transitions[j].from,
                ) && declares(d, d.transitions[j].to) by {
                    assert(i <= j < d.transitions.len());
                }
            }
            if edges_declared_from(d, i + 1) {
                assert forall|j: int| i <= j < d.transitions.len() implies declares(
                    d,
                    #[trigger] d.transitions[j].from,
                ) && declares(d, d.transitions[j].to) by {
                    if j > i {
                        assert(i + 1 <= j < d.transitions.len());
                    }
                }
            }
        } else {
            assert(first_unknown_edge(d, i) is Some);
            assert(!(declares(d, d.transitions[i].from) && declares(d, d.transitions[i].to)));
        }
    } else {
        assert(first_unknown_edge(d, i) is None);
    }
}

/// Law: validation finds no undeclared name exactly when the definition is well-formed.
pub proof fn lemma_first_unknown_iff_well_formed(d: DefinitionView)
    ensures
        first_unknown(d) is None <==> well_formed(d),
{
    lemma_first_unknown_edge(d, 0);
}

impl Definition {
    /// A definition is well-formed when every referenced state name is declared.
    /// The error names the first undeclared name: the initial state, then each
    /// edge in order, source before target.
    pub fn validate(&self) -> (r: Result<(), DomainError>)
        ensures
            r is Ok <==> first_unknown(self@) is None,
            r is Ok <==> well_formed(self@),
            r matches Err(e) ==> first_unknown(self@) == Some(e@->UnknownState_state)
                && e@ is UnknownState,
    {
        proof {
            lemma_first_unknown_iff_well_formed(self@);
        }
        match self.require_known(self.initial.as_str()) {
            Err(e) => return Err(e),
            Ok(()) => {},
        }
        let n = self.transitions.len();
        let mut i: usize = 0;
        while i < n
            invariant
                n == self.transitions@.len(),
                i <= n,
                declares(self@, self@.initial),
                first_unknown(self@) == first_unknown_edge(self@, i as int),
            decreases n - i,
        {
            let t = &self.transitions[i];
            assert(self@.transitions[i as int] == t@);
            match self.require_known(t.from.as_str()) {
                Err(e) => return Err(e),
                Ok(()) => {},
            }
            match self.require_known(t.to.as_str()) {
                Err(e) => return Err(e),
                Ok(()) => {},
            }
            i = i + 1;
        }
        Ok(())
    }

    /// The first state declared under `name`, if any.
    fn state(&self, name: &str) -> (r: Option<&State>)
        ensures
            match r {
                Some(s) => state_named(self@, name@) == Some(s@),
                None => state_named(self@, name@) is None,
            },
    {
        let n = self.states.len();
        let mut i: usize = 0;
        while i < n
            invariant
                n == self.states@.len(),
                i <= n,
                state_named(self@, name@) == lookup_from(self@.states, name@, i as int),
            decreases n - i,
        {
            let s = &self.states[i];
            assert(self@.states[i as int] == s@);
            if same_text(s.name.as_str(), name) {
                return Some(s);
            }
            i = i + 1;
        }
        None
    }

    /// Fails with `UnknownState` when `name` is not declared.
    fn require_known(&self, name: &str) -> (r: Result<(), DomainError>)
        ensures
            r is Ok <==> declares(self@, name@),
            r matches Err(e) ==> e@ == (DomainErrorView::UnknownState { state: name@ }),
    {
        proof {
            lemma_state_named(self@, name@);
        }
        if self.state(name).is_none() {
            return Err(DomainError::UnknownState { state: String::from_str(name) });
        }
        Ok(())
    }

    /// Whether the state called `name` is declared and terminal.
    fn is_terminal(&self, name: &str) -> (r: bool)
        ensures
            r == is_terminal_in(self@, name@),
    {
        match self.state(name) {
            Some(s) => s.terminal,
            None => false,
        }
    }

    /// Whether an edge leads from `from` to `to`.
    fn allows(&self, from: &str, to: &str) -> (r: bool)
        ensures
            r == allows(self@, from@, to@),
    {
        let n = self.transitions.len();
        let mut i: usize = 0;
        while i < n
            invariant
                n == self.transitions@.len(),
                i <= n,
                forall|j: int|
                    0 <= j < i ==> !(#[trigger] self@.transitions[j].from == from@
                        && self@.transitions[j].to == to@),
            decreases n - i,
        {
            let t = &self.transitions[i];
            assert(self@.transitions[i as int] == t@);
            if same_text(t.from.as_str(), from) && same_text(t.to.as_str(), to) {
                assert(self@.transitions[i as int].from == from@ && self@.transitions[i as int].to
                    == to@);
                return true;
            }
            i = i + 1;
        }
        false
    }
}

/// A live machine: its rules, where it currently sits, and an opaque `context`
/// blob. The context is owned by the consumer (a poll cursor, say); the machine
/// never inspects it, only carries it and replaces it along with a transition.
#[derive(Debug, Clone)]
pub struct StateMachine {
    pub def: Definition,
    pub current: String,
    pub context: serde_json::Value,
}

/// The mathematical value of a `StateMachine`.
pub struct StateMachineView {
    pub def: DefinitionView,
    pub current: Seq<char>,
    pub context: serde_json::Value,
}

impl View for StateMachine {
    type V = StateMachineView;

    open spec fn view(&self) -> StateMachineView {
        StateMachineView { def: self.def@, current: self.current@, context: self.context }
    }
}

/// What defining a machine from `def` with `context` gives: the machine at the
/// initial state, or the first undeclared name that `def` references.
pub open spec fn define_outcome(def: DefinitionView, context: serde_json::Value) -> Result<
    StateMachineView,
    DomainErrorView,
> {
    match first_unknown(def) {
        Some(name) => Err(DomainErrorView::UnknownState { state: name }),
        None => Ok(StateMachineView { def, current: def.initial, context }),
    }
}

/// What moving `m` to `to` gives. The target must be declared (else
/// `UnknownState`); the current state must not be terminal and the edge
/// `(current, to)` must exist (else `IllegalTransition`).
pub open spec fn transition_outcome(m: StateMachineView, to: Seq<char>) -> Result<
    StateMachineView,
    DomainErrorView,
> {
    if !declares(m.def, to) {
        Err(DomainErrorView::UnknownState { state: to })
    } else if is_terminal_in(m.def, m.current) || !allows(m.def, m.current, to) {
        Err(DomainErrorView::IllegalTransition { from: m.current, to })
    } else {
        Ok(StateMachineView { current: to, ..m })
    }
}

/// `m` after its context is replaced by `context`, or kept when there is none.
pub open spec fn with_context_outcome(m: StateMachineView, context: Option<serde_json::Value>) -> StateMachineView {
    match context {
        Some(c) => StateMachineView { context: c, ..m },
        None => m,
    }
}

/// The view of a result of a machine operation.
pub open spec fn machine_result(r: Result<StateMachine, DomainError>) -> Result<StateMachineView, DomainErrorView> {
    match r {
        Ok(m) => Ok(m@),
        Err(e) => Err(e@),
    }
}

/// A machine is consistent when its rules are well-formed and it sits on a declared state.
pub open spec fn consistent(m: StateMachineView) -> bool {
    well_formed(m.def) && declares(m.def, m.current)
}

impl StateMachine {
    /// Create a machine sitting at its initial state, born with `context`.
    /// Validates the definition.
    pub fn define(def: Definition, context: serde_json::Value) -> (r: Result<Self, DomainError>)
        ensures
            machine_result(r) == define_outcome(def@, context),
            r matches Ok(m) ==> consistent(m@),
    {
        proof {
            lemma_first_unknown_iff_well_formed(def@);
        }
        match def.validate() {
            Err(e) => return Err(e),
            Ok(()) => {},
        }
        let current = def.initial.clone();
        Ok(StateMachine { def, current, context })
    }

    /// Rebuild a persisted machine. The definition was validated when first defined.
    pub fn rehydrate(def: Definition, current: String, context: serde_json::Value) -> (r: Self)
        ensures
            r@ == (StateMachineView { def: def@, current: current@, context }),
    {
        StateMachine { def, current, context }
    }

    /// Move to `to`. Consumes `self` and returns the advanced machine, so an
    /// illegal transition cannot leave a half-mutated value behind.
    pub fn transition(self, to: &str) -> (r: Result<Self, DomainError>)
        ensures
            machine_result(r) == transition_outcome(self@, to@),
            consistent(self@) && r is Ok ==> consistent(r->Ok_0@),
    {
        match self.def.require_known(to) {
            Err(e) => return Err(e),
            Ok(()) => {},
        }
        if self.def.is_terminal(self.current.as_str()) {
            return Err(
                DomainError::IllegalTransition { from: self.current.clone(), to: String::from_str(to) },
            );
        }
        if !self.def.allows(self.current.as_str(), to) {
            return Err(
                DomainError::IllegalTransition { from: self.current.clone(), to: String::from_str(to) },
            );
        }
        Ok(StateMachine { def: self.def, current: String::from_str(to), context: self.context })
    }

    /// Replace the context blob wholly when one is given; keep it otherwise.
    pub fn with_context(self, context: Option<serde_json::Value>) -> (r: Self)
        ensures
            r@ == with_context_outcome(self@, context),
    {
        match context {
            Some(c) => StateMachine { def: self.def, current: self.current, context: c },
            None => self,
        }
    }
}

/// Law: a terminal state is absorbing, whatever the requested target.
pub proof fn law_terminal_is_absorbing(m: StateMachineView, to: Seq<char>)
    requires
        is_terminal_in(m.def, m.current),
    ensures
        transition_outcome(m, to) is Err,
{
}

/// Law: every operation keeps a machine consistent (its rules well-formed and its
/// current state declared): defining, transitioning, and replacing the context.
pub proof fn law_operations_keep_consistency(
    def: DefinitionView,
    m: StateMachineView,
    to: Seq<char>,
    context: serde_json::Value,
    new_context: Option<serde_json::Value>,
)
    ensures
        define_outcome(def, context) matches Ok(d) ==> consistent(d),
        consistent(m) && transition_outcome(m, to) is Ok ==> consistent(
            transition_outcome(m, to)->Ok_0,
        ),
        consistent(m) ==> consistent(with_context_outcome(m, new_context)),
{
    lemma_first_unknown_iff_well_formed(def);
}

/// Law: the transition rule. Moving to `to` succeeds exactly when `to` is
/// declared, the current state is not terminal and the definition has the edge
/// `(current, to)`; the machine then sits on `to` with its rules and context
/// unchanged. An undeclared target is refused as `UnknownState`; a declared one
/// from a terminal state or without an edge as `IllegalTransition`. Nothing else,
/// such as the target being terminal, bears on the outcome.
pub proof fn law_transition_rule(m: StateMachineView, to: Seq<char>)
    ensures
        declares(m.def, to) && !is_terminal_in(m.def, m.current) && allows(m.def, m.current, to)
            ==> transition_outcome(m, to) == Ok::<StateMachineView, DomainErrorView>(
            StateMachineView { def: m.def, current: to, context: m.context },
        ),
        !declares(m.def, to) ==> transition_outcome(m, to) == Err::<StateMachineView, DomainErrorView>(
            DomainErrorView::UnknownState { state: to },
        ),
        declares(m.def, to) && (is_terminal_in(m.def, m.current) || !allows(m.def, m.current, to))
            ==> transition_outcome(m, to) == Err::<StateMachineView, DomainErrorView>(
            DomainErrorView::IllegalTransition { from: m.current, to },
        ),
{
}

/// `name` is referenced by `d`: it is the initial state or an end of an edge.
pub open spec fn references(d: DefinitionView, name: Seq<char>) -> bool {
    ||| d.initial == name
    ||| exists|i: int|
        0 <= i < d.transitions.len() && (#[trigger] d.transitions[i].from == name
            || d.transitions[i].to == name)
}

proof fn lemma_first_unknown_edge_is_referenced(d: DefinitionView, i: int)
    requires
        0 <= i,
    ensures
        first_unknown_edge(d, i) matches Some(n) ==> !declares(d, n) && exists|j: int|
            i <= j < d.transitions.len() && (#[trigger] d.transitions[j].from == n
                || d.transitions[j].to == n),
    decreases d.transitions.len() - i,
{
    if i < d.transitions.len() {
        lemma_first_unknown_edge_is_referenced(d, i + 1);
        if first_unknown_edge(d, i) == first_unknown_edge(d, i + 1) {
            if first_unknown_edge(d, i) is Some {
                let n = first_unknown_edge(d, i)->Some_0;
                let j = choose|j: int|
                    i + 1 <= j < d.transitions.len() && (#[trigger] d.transitions[j].from == n
                        || d.transitions[j].to == n);
                assert(i <= j < d.transitions.len());
            }
        } else {
            assert(d.transitions[i].from == first_unknown_edge(d, i)->Some_0
                || d.transitions[i].to == first_unknown_edge(d, i)->Some_0);
        }
    }
}

/// Law: defining a machine succeeds exactly when its definition is well-formed
/// (every state name it references is declared), whatever else it holds, and
/// the machine then sits on the initial state with the rules and the context it
/// was given. Otherwise the refusal is `UnknownState`, naming a state that the
/// definition references and does not declare.
pub proof fn law_define_rule(def: DefinitionView, context: serde_json::Value)
    ensures
        well_formed(def) ==> define_outcome(def, context) == Ok::<StateMachineView, DomainErrorView>(
            StateMachineView { def, current: def.initial, context },
        ),
        !well_formed(def) ==> (define_outcome(def, context) matches Err(
            DomainErrorView::UnknownState { state },
        ) && !declares(def, state) && references(def, state)),
{
    lemma_first_unknown_iff_well_formed(def);
    lemma_first_unknown_edge_is_referenced(def, 0);
}

/// Law: a successful transition moves to the requested state and changes nothing
/// else; in particular the context is carried over untouched.
pub proof fn law_transition_moves_only_current(m: StateMachineView, to: Seq<char>)
    requires
        transition_outcome(m, to) is Ok,
    ensures
        transition_outcome(m, to)->Ok_0.current == to,
        transition_outcome(m, to)->Ok_0.def == m.def,
        transition_outcome(m, to)->Ok_0.context == m.context,
{
}

/// The machine after the first `i` transitions of `m` towards `targets`, or the
/// first error met on the way.
pub open spec fn after_steps(m: StateMachineView, targets: Seq<Seq<char>>, i: int) -> Result<
    StateMachineView,
    DomainErrorView,
>
    decreases i,
{
    if i <= 0 {
        Ok(m)
    } else {
        match after_steps(m, targets, i - 1) {
            Err(e) => Err(e),
            Ok(prev) => transition_outcome(prev, targets[i - 1]),
        }
    }
}

proof fn lemma_chain(m: StateMachineView, targets: Seq<Seq<char>>, n: int)
    requires
        0 <= n,
        after_steps(m, targets, n) is Ok,
    ensures
        forall|i: int| 0 <= i <= n ==> #[trigger] after_steps(m, targets, i) is Ok,
        forall|i: int|
            0 <= i <= n ==> (#[trigger] after_steps(m, targets, i))->Ok_0.def == m.def
                && after_steps(m, targets, i)->Ok_0.context == m.context,
        forall|i: int|
            1 <= i <= n ==> {
                let prev = after_steps(m, targets, i - 1)->Ok_0;
                let cur = (#[trigger] after_steps(m, targets, i))->Ok_0;
                &&& cur.current == targets[i - 1]
                &&& declares(m.def, cur.current)
                &&& allows(m.def, prev.current, cur.current)
                &&& !is_terminal_in(m.def, prev.current)
            },
    decreases n,
{
    if n > 0 {
        lemma_chain(m, targets, n - 1);
    }
}

/// Law: along any chain of successful transitions from a freshly defined
/// machine, every step follows an edge of the definition out of a non-terminal
/// state into a declared state, and the rules and the context stay those the
/// machine was defined with.
pub proof fn law_transition_chain(def: DefinitionView, context: serde_json::Value, targets: Seq<Seq<char>>)
    requires
        define_outcome(def, context) is Ok,
        after_steps(define_outcome(def, context)->Ok_0, targets, targets.len() as int) is Ok,
    ensures
        ({
            let m0 = define_outcome(def, context)->Ok_0;
            &&& m0.current == def.initial
            &&& forall|i: int|
                0 <= i <= targets.len() ==> (#[trigger] after_steps(m0, targets, i))->Ok_0.def == def
                    && after_steps(m0, targets, i)->Ok_0.context == context
            &&& forall|i: int|
                1 <= i <= targets.len() ==> {
                    let prev = after_steps(m0, targets, i - 1)->Ok_0;
                    let cur = (#[trigger] after_steps(m0, targets, i))->Ok_0;
                    &&& cur.current == targets[i - 1]
                    &&& declares(def, cur.current)
                    &&& allows(def, prev.current, cur.current)
                    &&& !is_terminal_in(def, prev.current)
                }
        }),
{
    lemma_chain(define_outcome(def, context)->Ok_0, targets, targets.len() as int);
}

} // verus!
