//! The source text of a derived handler trait.
//!
//! The trait declares the two hooks, `receive`, the control loop `run`, the
//! dispatcher and one handler per variant. The dispatcher is one `match`
//! with one arm per variant and no other arm, so the compiler holds it to
//! the variants of the message type. The loop is driven by
//! [`crate::control::step`].

use crate::dispatch::{
    field_models, generate, generated, handler_models, Declaration, DeclarationModel, Field,
    FieldModel, GenerateError, Handler, HandlerModel, HandlerTrait, HandlerTraitModel,
};
use vstd::prelude::*;
use vstd::string::StringExecFns;

verus! {

/// The fields an arm binds and hands on: each name followed by a comma.
pub open spec fn bindings_text(parameters: Seq<FieldModel>) -> Seq<char>
    decreases parameters.len(),
{
    if parameters.len() == 0 {
        Seq::empty()
    } else {
        bindings_text(parameters.drop_last()) + parameters.last().name + ", "@
    }
}

/// The parameters a handler declares behind `&mut self`: a comma, the name
/// and the type of each.
pub open spec fn arguments_text(parameters: Seq<FieldModel>) -> Seq<char>
    decreases parameters.len(),
{
    if parameters.len() == 0 {
        Seq::empty()
    } else {
        arguments_text(parameters.drop_last()) + ", "@ + parameters.last().name + ": "@
            + parameters.last().ty
    }
}

/// The arm of the dispatcher that answers one variant: it matches the
/// variant, binds its fields and calls the handler with them.
pub open spec fn arm_text(message_name: Seq<char>, handler: HandlerModel) -> Seq<char> {
    if handler.braced {
        message_name + "::"@ + handler.variant + " { "@ + bindings_text(handler.parameters)
            + "} => self."@ + handler.method + "("@ + bindings_text(handler.parameters) + "), "@
    } else {
        message_name + "::"@ + handler.variant + " => self."@ + handler.method + "(), "@
    }
}

/// The declaration of the handler that answers one variant.
pub open spec fn prototype_text(handler: HandlerModel) -> Seq<char> {
    "fn "@ + handler.method + "(&mut self"@ + arguments_text(handler.parameters)
        + ") -> ShouldTerminate; "@
}

/// The arms of the dispatcher: one for each handler, in order.
pub open spec fn arms_text(message_name: Seq<char>, handlers: Seq<HandlerModel>) -> Seq<char>
    decreases handlers.len(),
{
    if handlers.len() == 0 {
        Seq::empty()
    } else {
        arms_text(message_name, handlers.drop_last()) + arm_text(message_name, handlers.last())
    }
}

/// The declarations of the handlers, in order.
pub open spec fn prototypes_text(handlers: Seq<HandlerModel>) -> Seq<char>
    decreases handlers.len(),
{
    if handlers.len() == 0 {
        Seq::empty()
    } else {
        prototypes_text(handlers.drop_last()) + prototype_text(handlers.last())
    }
}

/// The control loop of every derived trait.
pub open spec fn run_text() -> Seq<char> {
    "fn run(&mut self) { \
let mut state = yocto_actor::control::ActorState::Idle; \
let mut event = yocto_actor::control::Event::Wake; \
while let Some(taken) = yocto_actor::control::step(state, event) { \
state = taken.next; \
event = match taken.action { \
yocto_actor::control::Action::PreRun => { \
self.pre_run(); \
yocto_actor::control::Event::Message(self.receive()) \
} \
yocto_actor::control::Action::Dispatch(message) => \
yocto_actor::control::Event::Handled(self.dispatch_message(message)), \
yocto_actor::control::Action::PostRun => { \
self.post_run(); \
yocto_actor::control::Event::Wake \
} \
yocto_actor::control::Action::Stop => break, \
}; \
} \
} "@
}

/// The whole trait.
pub open spec fn trait_text(derived: HandlerTraitModel) -> Seq<char> {
    "pub trait "@ + derived.trait_name
        + " { fn pre_run(&mut self) {} fn post_run(&mut self) {} fn receive(&self) -> "@
        + derived.message_name + "; "@ + run_text() + "fn dispatch_message(&mut self, message: "@
        + derived.message_name + ") -> ShouldTerminate { match message { "@ + arms_text(
        derived.message_name,
        derived.handlers,
    ) + "} } "@ + prototypes_text(derived.handlers) + "}"@
}

/// What [`actor_message`] answers for a declaration: the text of the
/// trait derived for it.
pub open spec fn expansion(declaration: DeclarationModel) -> Result<Seq<char>, GenerateError> {
    match generated(declaration) {
        Ok(derived) => Ok(trait_text(derived)),
        Err(error) => Err(error),
    }
}

/// What an expansion returned, with the text taken by its characters.
pub open spec fn expansion_outcome(outcome: Result<String, GenerateError>) -> Result<
    Seq<char>,
    GenerateError,
> {
    match outcome {
        Ok(text) => Ok(text@),
        Err(error) => Err(error),
    }
}

/// The text of the control loop.
fn run_source() -> (text: String)
    ensures
        text@ == run_text(),
{
    String::from_str(
        "fn run(&mut self) { \
let mut state = yocto_actor::control::ActorState::Idle; \
let mut event = yocto_actor::control::Event::Wake; \
while let Some(taken) = yocto_actor::control::step(state, event) { \
state = taken.next; \
event = match taken.action { \
yocto_actor::control::Action::PreRun => { \
self.pre_run(); \
yocto_actor::control::Event::Message(self.receive()) \
} \
yocto_actor::control::Action::Dispatch(message) => \
yocto_actor::control::Event::Handled(self.dispatch_message(message)), \
yocto_actor::control::Action::PostRun => { \
self.post_run(); \
yocto_actor::control::Event::Wake \
} \
yocto_actor::control::Action::Stop => break, \
}; \
} \
} ",
    )
}

/// Renders the fields an arm binds.
fn bindings_source(parameters: &Vec<Field>) -> (text: String)
    ensures
        text@ == bindings_text(field_models(parameters@)),
{
    let ghost models = field_models(parameters@);
    let mut text = String::new();
    let mut i: usize = 0;
    while i < parameters.len()
        invariant
            i <= parameters.len(),
            models == field_models(parameters@),
            text@ == bindings_text(models.take(i as int)),
        decreases parameters.len() - i,
    {
        text.append(parameters[i].name.as_str());
        text.append(", ");
        proof {
            let next = models.take(i + 1);
            assert(next.drop_last() =~= models.take(i as int));
            assert(next.last() == parameters[i as int]@);
        }
        i += 1;
    }
    assert(models.take(i as int) =~= models);
    text
}

/// Renders the parameters a handler declares.
fn arguments_source(parameters: &Vec<Field>) -> (text: String)
    ensures
        text@ == arguments_text(field_models(parameters@)),
{
    let ghost models = field_models(parameters@);
    let mut text = String::new();
    let mut i: usize = 0;
    while i < parameters.len()
        invariant
            i <= parameters.len(),
            models == field_models(parameters@),
            text@ == arguments_text(models.take(i as int)),
        decreases parameters.len() - i,
    {
        text.append(", ");
        text.append(parameters[i].name.as_str());
        text.append(": ");
        text.append(parameters[i].ty.as_str());
        proof {
            let next = models.take(i + 1);
            assert(next.drop_last() =~= models.take(i as int));
            assert(next.last() == parameters[i as int]@);
        }
        i += 1;
    }
    assert(models.take(i as int) =~= models);
    text
}

impl Handler {
    /// Renders the arm of the dispatcher of `message_name` that answers
    /// this handler's variant.
    pub fn dispatch_arm(&self, message_name: &str) -> (text: String)
        ensures
            text@ == arm_text(message_name@, self@),
    {
        let mut text = String::from_str(message_name);
        text.append("::");
        text.append(self.variant.as_str());
        if self.braced {
            let bindings = bindings_source(&self.parameters);
            text.append(" { ");
            text.append(bindings.as_str());
            text.append("} => self.");
            text.append(self.method.as_str());
            text.append("(");
            text.append(bindings.as_str());
            text.append("), ");
        } else {
            text.append(" => self.");
            text.append(self.method.as_str());
            text.append("(), ");
        }
        text
    }

    /// Renders the declaration of this handler.
    pub fn prototype(&self) -> (text: String)
        ensures
            text@ == prototype_text(self@),
    {
        let arguments = arguments_source(&self.parameters);
        let mut text = String::from_str("fn ");
        text.append(self.method.as_str());
        text.append("(&mut self");
        text.append(arguments.as_str());
        text.append(") -> ShouldTerminate; ");
        text
    }
}

impl HandlerTrait {
    /// Renders the arms of the dispatcher.
    fn arms_source(&self) -> (text: String)
        ensures
            text@ == arms_text(self.message_name@, handler_models(self.handlers@)),
    {
        let ghost models = handler_models(self.handlers@);
        let mut text = String::new();
        let mut i: usize = 0;
        while i < self.handlers.len()
            invariant
                i <= self.handlers.len(),
                models == handler_models(self.handlers@),
                text@ == arms_text(self.message_name@, models.take(i as int)),
            decreases self.handlers.len() - i,
        {
            let arm = self.handlers[i].dispatch_arm(self.message_name.as_str());
            text.append(arm.as_str());
            proof {
                let next = models.take(i + 1);
                assert(next.drop_last() =~= models.take(i as int));
                assert(next.last() == self.handlers[i as int]@);
            }
            i += 1;
        }
        assert(models.take(i as int) =~= models);
        text
    }

    /// Renders the declarations of the handlers.
    fn prototypes_source(&self) -> (text: String)
        ensures
            text@ == prototypes_text(handler_models(self.handlers@)),
    {
        let ghost models = handler_models(self.handlers@);
        let mut text = String::new();
        let mut i: usize = 0;
        while i < self.handlers.len()
            invariant
                i <= self.handlers.len(),
                models == handler_models(self.handlers@),
                text@ == prototypes_text(models.take(i as int)),
            decreases self.handlers.len() - i,
        {
            let prototype = self.handlers[i].prototype();
            text.append(prototype.as_str());
            proof {
                let next = models.take(i + 1);
                assert(next.drop_last() =~= models.take(i as int));
                assert(next.last() == self.handlers[i as int]@);
            }
            i += 1;
        }
        assert(models.take(i as int) =~= models);
        text
    }

    /// Renders the trait: hooks, `receive`, the control loop, the
    /// dispatcher with one arm per handler, and the handlers'
    /// declarations.
    pub fn source(&self) -> (text: String)
        ensures
            text@ == trait_text(self@),
    {
        let arms = self.arms_source();
        let prototypes = self.prototypes_source();
        let run = run_source();
        let mut text = String::from_str("pub trait ");
        text.append(self.trait_name.as_str());
        text.append(" { fn pre_run(&mut self) {} fn post_run(&mut self) {} fn receive(&self) -> ");
        text.append(self.message_name.as_str());
        text.append("; ");
        text.append(run.as_str());
        text.append("fn dispatch_message(&mut self, message: ");
        text.append(self.message_name.as_str());
        text.append(") -> ShouldTerminate { match message { ");
        text.append(arms.as_str());
        text.append("} } ");
        text.append(prototypes.as_str());
        text.append("}");
        text
    }
}

/// Expands the `actor_message` attribute on a declaration: derives the
/// handler trait of the message type and renders it, to stand behind the
/// declaration itself. Fails with [`GenerateError::NotAnEnum`] when the
/// declaration is no enum, and with [`GenerateError::TupleVariant`] when
/// some variant has positional fields.
pub fn actor_message(declaration: &Declaration) -> (outcome: Result<String, GenerateError>)
    ensures
        expansion_outcome(outcome) == expansion(declaration@),
{
    match generate(declaration) {
        Ok(derived) => Ok(derived.source()),
        Err(error) => Err(error),
    }
}

} // verus!
