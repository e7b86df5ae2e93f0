//! One compilation as the bridge sees it: the compiler asks for quoted
//! literals while it runs, and the first failure of the host's callable
//! decides the outcome of the whole call.

use crate::dialect::{release_descriptor, DialectDescriptor};
use crate::error::{BridgeError, BridgeErrorView};
use crate::registry::CallbackRegistry;
use vstd::prelude::*;
use vstd::string::*;

verus! {

/// The state of one compiling call.
pub struct CompileSession {
    /// What the compiler was handed.
    pub descriptor: DialectDescriptor,
    /// The first failure met while quoting a literal, if any.
    pub failure: Option<BridgeError>,
}

/// The view of an optional error.
pub open spec fn failure_view(f: Option<BridgeError>) -> Option<BridgeErrorView> {
    match f {
        Some(e) => Some(e@),
        None => None,
    }
}

/// The view of the outcome of one call of the host's callable.
pub open spec fn outcome_view(o: Result<String, BridgeError>) -> Result<Seq<char>, BridgeErrorView> {
    match o {
        Ok(s) => Ok(s@),
        Err(e) => Err(e@),
    }
}

/// What the host's callable answered, as the bridge reads it: a report of
/// failure becomes a callback error that carries it.
pub open spec fn answer_view(a: Result<String, String>) -> Result<Seq<char>, BridgeErrorView> {
    match a {
        Ok(s) => Ok(s@),
        Err(report) => Err(BridgeErrorView::Callback(report@)),
    }
}

/// How one outcome moves a session on: `text` is what goes back to the
/// compiler and `after` the failure kept from then on. A quoted text goes back
/// unchanged; on a failure the literal goes back and the first failure stays.
pub open spec fn quoted_as(
    before: Option<BridgeErrorView>,
    literal: Seq<char>,
    outcome: Result<Seq<char>, BridgeErrorView>,
    text: Seq<char>,
    after: Option<BridgeErrorView>,
) -> bool {
    match outcome {
        Ok(quoted) => text == quoted && after == before,
        Err(e) => text == literal && after == (if before is Some {
            before
        } else {
            Some(e)
        }),
    }
}

impl CompileSession {
    /// A session for a descriptor just built; nothing has failed yet.
    pub fn new(descriptor: DialectDescriptor) -> (session: Self)
        ensures
            session.descriptor == descriptor,
            session.failure is None,
    {
        CompileSession { descriptor, failure: None }
    }

    /// Whether a callable has failed in this session.
    pub fn has_failed(&self) -> (b: bool)
        ensures
            b == (self.failure is Some),
    {
        self.failure.is_some()
    }

    /// Takes the outcome of one call of the host's callable on `literal` and
    /// gives the text that goes back to the compiler: the callable's result,
    /// unchanged. Where the callable failed, the literal itself goes back so
    /// that the compiler can run on, and the first such failure is kept.
    pub fn record_escape(&mut self, literal: &str, outcome: Result<String, BridgeError>) -> (text:
        String)
        ensures
            final(self).descriptor == old(self).descriptor,
            quoted_as(
                failure_view(old(self).failure),
                literal@,
                outcome_view(outcome),
                text@,
                failure_view(final(self).failure),
            ),
    {
        match outcome {
            Ok(quoted) => quoted,
            Err(e) => {
                if self.failure.is_none() {
                    self.failure = Some(e);
                }
                String::from_str(literal)
            },
        }
    }

    /// Quotes one literal for the compiler: resolves the session's callable
    /// in `registry`, calls it once on `literal`, and hands its answer to
    /// [`CompileSession::record_escape`]. A handle that does not resolve counts
    /// as a failure; a session without a callable hands the literal back.
    pub fn quote_literal<C: Fn(&str) -> Result<String, String>>(
        &mut self,
        registry: &CallbackRegistry<C>,
        literal: &str,
    ) -> (text: String)
        requires
            forall|id: u64| #[trigger]
                registry.entries().dom().contains(id) ==> call_requires(
                    registry.entries()[id],
                    (literal,),
                ),
        ensures
            final(self).descriptor == old(self).descriptor,
            match old(self).descriptor.escape_of() {
                None => text@ == literal@ && failure_view(final(self).failure) == failure_view(
                    old(self).failure,
                ),
                Some(h) => if registry.holds(h) {
                    exists|answer: Result<String, String>|
                        {
                            &&& call_ensures(registry.entries()[h.id], (literal,), answer)
                            &&& quoted_as(
                                failure_view(old(self).failure),
                                literal@,
                                answer_view(answer),
                                text@,
                                failure_view(final(self).failure),
                            )
                        }
                } else {
                    quoted_as(
                        failure_view(old(self).failure),
                        literal@,
                        Err(BridgeErrorView::UnknownCallback),
                        text@,
                        failure_view(final(self).failure),
                    )
                },
            },
    {
        match self.descriptor.escape() {
            None => String::from_str(literal),
            Some(h) => {
                let outcome = match registry.resolve(h) {
                    Ok(callable) => {
                        let answer = callable(literal);
                        let ghost seen = answer;
                        let outcome = match answer {
                            Ok(quoted) => Ok(quoted),
                            Err(report) => Err(BridgeError::Callback(report)),
                        };
                        assert(outcome_view(outcome) == answer_view(seen));
                        outcome
                    },
                    Err(e) => Err(e),
                };
                self.record_escape(literal, outcome)
            },
        }
    }

    /// Ends the session: the callable leaves the registry whether or not the
    /// call went well, and the compiler's output is handed on unchanged unless
    /// a callable failed, in which case the first failure is the result.
    pub fn finish<C, T>(self, registry: &mut CallbackRegistry<C>, output: T) -> (result: Result<
        T,
        BridgeError,
    >)
        requires
            old(registry).wf(),
        ensures
            final(registry).wf(),
            final(registry).scope() == old(registry).scope(),
            final(registry).next_id() == old(registry).next_id(),
            self.descriptor.escape_of() is Some ==> !final(registry).holds(
                self.descriptor.escape_of()->Some_0,
            ),
            final(registry).entries() == match self.descriptor.escape_of() {
                Some(h) => if old(registry).holds(h) {
                    old(registry).entries().remove(h.id)
                } else {
                    old(registry).entries()
                },
                None => old(registry).entries(),
            },
            match self.failure {
                Some(e) => result is Err && result->Err_0@ == e@,
                None => result == Ok::<T, BridgeError>(output),
            },
    {
        release_descriptor(registry, &self.descriptor);
        match self.failure {
            Some(e) => Err(e),
            None => Ok(output),
        }
    }
}

/// A failure of the host's callable, with what the host reported.
pub fn callback_failure(report: &str) -> (e: BridgeError)
    ensures
        e@ == BridgeErrorView::Callback(report@),
{
    BridgeError::Callback(String::from_str(report))
}

} // verus!
