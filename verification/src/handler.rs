//! Handler descriptors and the per-session handler registry.
//!
//! A registry maps each lifecycle event name (`connect`, `message`,
//! `close`) to the descriptor of the handler registered for it.  A
//! registry missing one of the three names is a construction-time
//! contract violation, so construction returns an error rather than
//! producing a partial registry.

use vstd::prelude::*;

verus! {

/// How many positional parameters a registered handler declares.
/// Any arity at or above two is treated identically, so that handler
/// signatures can absorb future additional parameters.
#[derive(Clone, Copy, PartialEq, Eq, Structural, Debug)]
pub enum ArityClass {
    Zero,
    One,
    TwoOrMore,
}

impl ArityClass {
    /// The arity class of a handler declaring `count` positional
    /// parameters: any count at or above two falls into one bucket.
    pub fn from_count(count: u8) -> (c: ArityClass)
        ensures
            c == ArityClass::Zero <==> count == 0,
            c == ArityClass::One <==> count == 1,
            c == ArityClass::TwoOrMore <==> count >= 2,
    {
        if count == 0 {
            ArityClass::Zero
        } else if count == 1 {
            ArityClass::One
        } else {
            ArityClass::TwoOrMore
        }
    }
}

/// Describes one registered handler: its arity class, whether its
/// execution may suspend, and an opaque reference by which the
/// embedder finds the underlying callable.
#[derive(Clone, Copy, PartialEq, Eq, Structural, Debug)]
pub struct HandlerDescriptor {
    pub arity: ArityClass,
    pub is_suspending: bool,
    pub target: u64,
}

/// The fixed vocabulary of lifecycle events that dispatch through the
/// registry.
#[derive(Clone, Copy, PartialEq, Eq, Structural, Debug)]
pub enum EventName {
    Connect,
    Message,
    Close,
}

/// The registry key under which a handler for `ev` is registered.
pub open spec fn event_key(ev: EventName) -> Seq<char> {
    match ev {
        EventName::Connect => "connect"@,
        EventName::Message => "message"@,
        EventName::Close => "close"@,
    }
}

/// Which required registry entry was absent at construction.
#[derive(Clone, Copy, PartialEq, Eq, Structural, Debug)]
pub enum RegistryError {
    MissingConnect,
    MissingMessage,
    MissingClose,
}

/// Immutable mapping from lifecycle event name to handler descriptor.
/// Constructed once, before the session starts, and never mutated.
#[derive(Clone, Copy, PartialEq, Eq, Structural, Debug)]
pub struct Registry {
    pub connect: HandlerDescriptor,
    pub message: HandlerDescriptor,
    pub close: HandlerDescriptor,
}

/// The descriptor of the first entry whose key reads `key`, if any.
pub open spec fn find_descriptor(
    entries: Seq<(String, HandlerDescriptor)>,
    key: Seq<char>,
) -> Option<HandlerDescriptor>
    decreases entries.len(),
{
    if entries.len() == 0 {
        None
    } else if entries[0].0@ == key {
        Some(entries[0].1)
    } else {
        find_descriptor(entries.drop_first(), key)
    }
}

proof fn lemma_find_descriptor_skip(
    entries: Seq<(String, HandlerDescriptor)>,
    key: Seq<char>,
    i: int,
)
    requires
        0 <= i <= entries.len(),
        forall|j: int| 0 <= j < i ==> entries[j].0@ != key,
    ensures
        find_descriptor(entries, key) == find_descriptor(entries.skip(i), key),
    decreases i,
{
    if i == 0 {
        assert(entries.skip(0) =~= entries);
    } else {
        assert(entries[0].0@ != key);
        lemma_find_descriptor_skip(entries.drop_first(), key, i - 1);
        assert(entries.drop_first().skip(i - 1) =~= entries.skip(i));
    }
}

/// The first entry of `entries` whose key equals `key`, if any.
fn find_entry(entries: &Vec<(String, HandlerDescriptor)>, key: &String) -> (r: Option<
    HandlerDescriptor,
>)
    ensures
        r == find_descriptor(entries@, key@),
{
    let n = entries.len();
    for i in 0..n
        invariant
            n == entries@.len(),
            forall|j: int| 0 <= j < i ==> entries@[j].0@ != key@,
    {
        if entries[i].0 == *key {
            proof {
                lemma_find_descriptor_skip(entries@, key@, i as int);
            }
            return Some(entries[i].1);
        }
    }
    proof {
        lemma_find_descriptor_skip(entries@, key@, n as int);
    }
    None
}

impl Registry {
    /// The descriptor this registry holds for `ev`.
    pub open spec fn spec_lookup(self, ev: EventName) -> HandlerDescriptor {
        match ev {
            EventName::Connect => self.connect,
            EventName::Message => self.message,
            EventName::Close => self.close,
        }
    }

    /// Looks up the handler registered for a lifecycle event.  Total:
    /// a well-constructed registry holds an entry for every event name.
    pub fn lookup(&self, ev: EventName) -> (d: HandlerDescriptor)
        ensures
            d == self.spec_lookup(ev),
    {
        match ev {
            EventName::Connect => self.connect,
            EventName::Message => self.message,
            EventName::Close => self.close,
        }
    }

    /// Builds a registry from named entries.  For each required event
    /// name the first entry under that name is taken; if one of
    /// `connect`, `message`, `close` is absent, construction fails with
    /// the first missing name, in that order.
    pub fn from_entries(entries: &Vec<(String, HandlerDescriptor)>) -> (r: Result<
        Registry,
        RegistryError,
    >)
        ensures
            r matches Ok(reg) ==> {
                &&& Some(reg.connect) == find_descriptor(entries@, event_key(EventName::Connect))
                &&& Some(reg.message) == find_descriptor(entries@, event_key(EventName::Message))
                &&& Some(reg.close) == find_descriptor(entries@, event_key(EventName::Close))
            },
            r is Ok <==> {
                &&& find_descriptor(entries@, event_key(EventName::Connect)) is Some
                &&& find_descriptor(entries@, event_key(EventName::Message)) is Some
                &&& find_descriptor(entries@, event_key(EventName::Close)) is Some
            },
            r == Err::<Registry, RegistryError>(RegistryError::MissingConnect) <==> find_descriptor(
                entries@,
                event_key(EventName::Connect),
            ) is None,
            r == Err::<Registry, RegistryError>(RegistryError::MissingMessage) <==> {
                &&& find_descriptor(entries@, event_key(EventName::Connect)) is Some
                &&& find_descriptor(entries@, event_key(EventName::Message)) is None
            },
            r == Err::<Registry, RegistryError>(RegistryError::MissingClose) <==> {
                &&& find_descriptor(entries@, event_key(EventName::Connect)) is Some
                &&& find_descriptor(entries@, event_key(EventName::Message)) is Some
                &&& find_descriptor(entries@, event_key(EventName::Close)) is None
            },
    {
        let connect = find_entry(entries, &String::from_str("connect"));
        let message = find_entry(entries, &String::from_str("message"));
        let close = find_entry(entries, &String::from_str("close"));
        match (connect, message, close) {
            (Some(c), Some(m), Some(cl)) => Ok(
                Registry { connect: c, message: m, close: cl },
            ),
            (None, _, _) => Err(RegistryError::MissingConnect),
            (Some(_), None, _) => Err(RegistryError::MissingMessage),
            (Some(_), Some(_), None) => Err(RegistryError::MissingClose),
        }
    }
}

} // verus!
