//! Choosing the SQL dialect and wiring in the host's quoting callable.

use crate::error::{BridgeError, BridgeErrorView};
use crate::registry::{CallbackHandle, CallbackRegistry};
use vstd::prelude::*;
use vstd::string::*;

verus! {

/// The SQL flavours that the compiler can target.
#[derive(Clone, Copy, Debug, PartialEq, Eq, Structural)]
pub enum Dialect {
    Postgres,
    Duckdb,
}

/// What the compiler is handed: the dialect and, where the dialect can use
/// one, the handle of the callable that quotes string literals.
#[derive(Clone, Copy, Debug, PartialEq, Eq)]
pub enum DialectDescriptor {
    Postgres { escape: Option<CallbackHandle> },
    Duckdb,
}

/// The dialect that a name selects. Names are case-sensitive and have no aliases.
pub open spec fn dialect_named(name: Seq<char>) -> Option<Dialect> {
    if name == "postgres"@ {
        Some(Dialect::Postgres)
    } else if name == "duckdb"@ {
        Some(Dialect::Duckdb)
    } else {
        None
    }
}

/// The descriptor that [`build_descriptor`] makes for a dialect, given the
/// handle under which a supplied callable would be registered.
pub open spec fn descriptor_for(dialect: Dialect, supplied: bool, fresh: CallbackHandle)
    -> DialectDescriptor {
    match dialect {
        Dialect::Postgres => DialectDescriptor::Postgres {
            escape: if supplied {
                Some(fresh)
            } else {
                None
            },
        },
        Dialect::Duckdb => DialectDescriptor::Duckdb,
    }
}

impl Dialect {
    /// Reads a dialect name. Anything but `postgres` and `duckdb` is an error,
    /// never a silent fallback.
    pub fn from_name(name: &str) -> (found: Result<Dialect, BridgeError>)
        ensures
            match dialect_named(name@) {
                Some(d) => found is Ok && found->Ok_0 == d,
                None => found is Err && found->Err_0@ == BridgeErrorView::UnsupportedDialect,
            },
    {
        let given = String::from_str(name);
        if given == String::from_str("postgres") {
            Ok(Dialect::Postgres)
        } else if given == String::from_str("duckdb") {
            Ok(Dialect::Duckdb)
        } else {
            Err(BridgeError::UnsupportedDialect)
        }
    }

    /// The name that selects this dialect.
    pub fn name(self) -> (name: String)
        ensures
            dialect_named(name@) == Some(self),
    {
        proof {
            reveal_strlit("postgres");
            reveal_strlit("duckdb");
            assert("postgres"@.len() != "duckdb"@.len());
        }
        match self {
            Dialect::Postgres => String::from_str("postgres"),
            Dialect::Duckdb => String::from_str("duckdb"),
        }
    }

    /// Whether the dialect takes a quoting callable from the host.
    pub fn supports_custom_escape(self) -> (b: bool)
        ensures
            b == (self == Dialect::Postgres),
    {
        match self {
            Dialect::Postgres => true,
            Dialect::Duckdb => false,
        }
    }
}

impl DialectDescriptor {
    /// The dialect described.
    pub open spec fn dialect_of(self) -> Dialect {
        match self {
            DialectDescriptor::Postgres { .. } => Dialect::Postgres,
            DialectDescriptor::Duckdb => Dialect::Duckdb,
        }
    }

    /// The handle of the quoting callable, if one is wired in.
    pub open spec fn escape_of(self) -> Option<CallbackHandle> {
        match self {
            DialectDescriptor::Postgres { escape } => escape,
            DialectDescriptor::Duckdb => None,
        }
    }

    /// The dialect described.
    pub fn dialect(&self) -> (d: Dialect)
        ensures
            d == self.dialect_of(),
    {
        match self {
            DialectDescriptor::Postgres { .. } => Dialect::Postgres,
            DialectDescriptor::Duckdb => Dialect::Duckdb,
        }
    }

    /// The handle of the quoting callable, if one is wired in.
    pub fn escape(&self) -> (h: Option<CallbackHandle>)
        ensures
            h == self.escape_of(),
    {
        match self {
            DialectDescriptor::Postgres { escape } => *escape,
            DialectDescriptor::Duckdb => None,
        }
    }
}

/// Builds the descriptor for `name`. For `postgres` a supplied callable is
/// registered and its handle wired in; for `duckdb` a supplied callable is
/// accepted and ignored; any other name is refused and the registry is left
/// as it was.
pub fn build_descriptor<C>(
    registry: &mut CallbackRegistry<C>,
    name: &str,
    callable: Option<C>,
) -> (built: Result<DialectDescriptor, BridgeError>)
    requires
        old(registry).wf(),
        old(registry).next_id() < u64::MAX,
    ensures
        final(registry).wf(),
        final(registry).scope() == old(registry).scope(),
        match dialect_named(name@) {
            Some(d) => built is Ok && built->Ok_0 == descriptor_for(
                d,
                callable is Some,
                CallbackHandle { scope: old(registry).scope(), id: old(registry).next_id() },
            ),
            None => built is Err && built->Err_0@ == BridgeErrorView::UnsupportedDialect,
        },
        dialect_named(name@) == Some(Dialect::Postgres) && callable is Some ==> {
            &&& final(registry).entries() == old(registry).entries().insert(
                old(registry).next_id(),
                callable->Some_0,
            )
            &&& final(registry).next_id() == old(registry).next_id() + 1
        },
        !(dialect_named(name@) == Some(Dialect::Postgres) && callable is Some) ==> {
            &&& final(registry).entries() == old(registry).entries()
            &&& final(registry).next_id() == old(registry).next_id()
        },
{
    match Dialect::from_name(name) {
        Ok(Dialect::Postgres) => {
            let escape = match callable {
                Some(c) => Some(registry.register(c)),
                None => None,
            };
            Ok(DialectDescriptor::Postgres { escape })
        },
        Ok(Dialect::Duckdb) => Ok(DialectDescriptor::Duckdb),
        Err(e) => Err(e),
    }
}

/// Ends the scope of a descriptor: the callable that it had registered, if
/// any, leaves the registry.
pub fn release_descriptor<C>(registry: &mut CallbackRegistry<C>, descriptor: &DialectDescriptor)
    requires
        old(registry).wf(),
    ensures
        final(registry).wf(),
        final(registry).scope() == old(registry).scope(),
        final(registry).next_id() == old(registry).next_id(),
        final(registry).entries() == match descriptor.escape_of() {
            Some(h) => if old(registry).holds(h) {
                old(registry).entries().remove(h.id)
            } else {
                old(registry).entries()
            },
            None => old(registry).entries(),
        },
{
    match descriptor.escape() {
        Some(h) => registry.release(h),
        None => {},
    }
}

/// Registering a callable for a call and releasing it when the call ends
/// leaves the registry holding exactly what it held before.
pub proof fn lemma_release_restores<C>(
    before: CallbackRegistry<C>,
    during: CallbackRegistry<C>,
    after: CallbackRegistry<C>,
    callable: C,
)
    requires
        before.wf(),
        during.entries() == before.entries().insert(before.next_id(), callable),
        after.entries() == during.entries().remove(before.next_id()),
    ensures
        after.entries() == before.entries(),
{
    before.lemma_entries_below_counter();
    assert(!before.entries().dom().contains(before.next_id()));
    assert(after.entries() =~= before.entries());
}

/// A handle held by one registry is never held by a registry of another
/// scope: a callable registered on one thread cannot be resolved on another.
pub proof fn lemma_scopes_are_disjoint<C>(
    mine: CallbackRegistry<C>,
    other: CallbackRegistry<C>,
    handle: CallbackHandle,
)
    requires
        mine.scope() != other.scope(),
        mine.holds(handle),
    ensures
        !other.holds(handle),
{
}

/// A number handed out once is not handed out again: every handle held lies
/// below the counter, and the next handle is made from the counter.
pub proof fn lemma_next_handle_is_new<C>(registry: CallbackRegistry<C>, handle: CallbackHandle)
    requires
        registry.wf(),
        registry.holds(handle),
    ensures
        handle.id < registry.next_id(),
        handle != (CallbackHandle { scope: registry.scope(), id: registry.next_id() }),
{
    registry.lemma_entries_below_counter();
}

/// Whatever the query, a name other than the two dialect names selects nothing.
pub proof fn lemma_only_two_names(name: Seq<char>)
    ensures
        dialect_named(name) is Some <==> (name == "postgres"@ || name == "duckdb"@),
        dialect_named("postgres"@) == Some(Dialect::Postgres),
        dialect_named("duckdb"@) == Some(Dialect::Duckdb),
{
    reveal_strlit("postgres");
    reveal_strlit("duckdb");
    assert("postgres"@.len() != "duckdb"@.len());
}

} // verus!
