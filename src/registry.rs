use vstd::prelude::*;

verus! {

/// The host functions that script can call, each under a name of the registry.
#[derive(Clone, Copy, Debug, PartialEq, Eq, Structural)]
pub enum Handler {
    /// Synchronous: one string argument, answered with its upper-case form.
    ToUppercase,
    /// Synchronous: two integer arguments, answered with their sum.
    AddInt,
    /// Synchronous: one string argument, answered with the integer it writes.
    ParseInt,
    /// Asynchronous: one unsigned argument, a delay in milliseconds, after
    /// which the call is answered with `"ok"`.
    Sleep,
    /// Synchronous: no argument; emits a `custom` event into the calling
    /// context and answers with null.
    Emit,
}

impl Handler {
    /// Whether a call of this handler completes later, through the spawner.
    pub fn is_async(&self) -> (r: bool)
        ensures
            r == (*self == Handler::Sleep),
    {
        match self {
            Handler::Sleep => true,
            _ => false,
        }
    }
}

/// One registration: a name and the handler behind it.
pub struct Entry {
    pub name: String,
    pub handler: Handler,
}

/// The handler that `name` resolves to in a list of registrations: the one
/// registered last under that name.
pub open spec fn resolve(entries: Seq<(Seq<char>, Handler)>, name: Seq<char>) -> Option<Handler>
    decreases entries.len(),
{
    if entries.len() == 0 {
        None
    } else if entries.last().0 == name {
        Some(entries.last().1)
    } else {
        resolve(entries.drop_last(), name)
    }
}

pub open spec fn entries_view(e: Seq<Entry>) -> Seq<(Seq<char>, Handler)> {
    e.map_values(|x: Entry| (x.name@, x.handler))
}

/// Collects registrations; `build` turns them into a [`Registry`].
pub struct RegistryBuilder {
    entries: Vec<Entry>,
}

/// A mapping from function name to handler, fixed once built.
pub struct Registry {
    entries: Vec<Entry>,
}

impl View for RegistryBuilder {
    type V = Seq<(Seq<char>, Handler)>;

    closed spec fn view(&self) -> Seq<(Seq<char>, Handler)> {
        entries_view(self.entries@)
    }
}

impl View for Registry {
    type V = Seq<(Seq<char>, Handler)>;

    closed spec fn view(&self) -> Seq<(Seq<char>, Handler)> {
        entries_view(self.entries@)
    }
}

impl RegistryBuilder {
    /// A builder with no registration.
    pub fn new() -> (r: RegistryBuilder)
        ensures
            r@ == Seq::<(Seq<char>, Handler)>::empty(),
    {
        RegistryBuilder { entries: Vec::new() }
    }

    /// Registers `handler` under `name`; a later registration under the same
    /// name replaces this one.
    pub fn register(self, name: &str, handler: Handler) -> (r: RegistryBuilder)
        ensures
            r@ == self@.push((name@, handler)),
    {
        let mut entries = self.entries;
        let ghost before = entries@;
        entries.push(Entry { name: name.to_string(), handler });
        proof {
            assert(entries_view(entries@) =~= entries_view(before).push((name@, handler)));
        }
        RegistryBuilder { entries }
    }

    /// The registry of every registration made so far.
    pub fn build(self) -> (r: Registry)
        ensures
            r@ == self@,
    {
        Registry { entries: self.entries }
    }
}

impl Registry {
    /// The handler registered last under `name`, if any.
    pub fn lookup(&self, name: &str) -> (r: Option<Handler>)
        ensures
            r == resolve(self@, name@),
    {
        let key = name.to_string();
        let mut i: usize = self.entries.len();
        assert(self@.subrange(0, i as int) =~= self@);
        while i > 0
            invariant
                i <= self.entries@.len(),
                key@ == name@,
                resolve(self@, name@) == resolve(self@.subrange(0, i as int), name@),
            decreases i,
        {
            let e = &self.entries[i - 1];
            let ghost pre = self@.subrange(0, i as int);
            assert(pre.last() == (e.name@, e.handler));
            if e.name == key {
                return Some(e.handler);
            }
            assert(pre.drop_last() =~= self@.subrange(0, i - 1));
            i = i - 1;
        }
        None
    }
}

/// The registry that the browser application exposes to script:
/// `toUppercase`, `addInt`, `parseInt`, `sleep` (asynchronous) and `emit`.
pub fn standard_registry() -> (r: Registry)
    ensures
        r@ == seq![
            ("toUppercase"@, Handler::ToUppercase),
            ("addInt"@, Handler::AddInt),
            ("parseInt"@, Handler::ParseInt),
            ("sleep"@, Handler::Sleep),
            ("emit"@, Handler::Emit),
        ],
{
    let b = RegistryBuilder::new().register("toUppercase", Handler::ToUppercase).register(
        "addInt",
        Handler::AddInt,
    ).register("parseInt", Handler::ParseInt).register("sleep", Handler::Sleep).register(
        "emit",
        Handler::Emit,
    );
    let r = b.build();
    assert(r@ =~= seq![
        ("toUppercase"@, Handler::ToUppercase),
        ("addInt"@, Handler::AddInt),
        ("parseInt"@, Handler::ParseInt),
        ("sleep"@, Handler::Sleep),
        ("emit"@, Handler::Emit),
    ]);
    r
}

/// Registering under a name makes that name resolve to the new handler, and
/// leaves every other name as it was: a second registration under one name
/// replaces the first.
pub proof fn lemma_register_replaces(
    entries: Seq<(Seq<char>, Handler)>,
    name: Seq<char>,
    first: Handler,
    second: Handler,
    other: Seq<char>,
)
    requires
        other != name,
    ensures
        resolve(entries.push((name, first)).push((name, second)), name) == Some(second),
        resolve(entries.push((name, first)).push((name, second)), other) == resolve(entries, other),
{
    let once = entries.push((name, first));
    let twice = once.push((name, second));
    assert(twice.drop_last() =~= once);
    assert(once.drop_last() =~= entries);
    assert(resolve(twice, other) == resolve(once, other));
    assert(resolve(once, other) == resolve(entries, other));
}

} // verus!
