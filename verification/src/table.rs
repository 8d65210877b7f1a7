//! The command table: a mapping from command name to command, built once
//! before the session and read-only while it runs.

use vstd::prelude::*;
use vstd::pervasive::VecAdditionalExecFns;

verus! {

/// How many arguments a command accepts, the command name not counted.
#[derive(Clone, Copy, PartialEq, Eq, Structural)]
pub enum NArgs {
    /// Exactly this many arguments.
    ExactCount(usize),
    /// Any number of arguments.
    AnyCount,
}

/// Whether an argument count satisfies a policy.
pub open spec fn arity_ok(policy: NArgs, argc: nat) -> bool {
    match policy {
        NArgs::ExactCount(k) => argc == k,
        NArgs::AnyCount => true,
    }
}

/// A registered command: the evaluator to invoke and the argument-count
/// policy to hold a line against first.
pub struct Command<H> {
    /// Runs when the command is invoked.
    pub evaluator: H,
    /// How many arguments the command accepts.
    pub nargs: NArgs,
}

struct Binding<H> {
    name: String,
    command: Command<H>,
}

/// A map from command names to commands. Registering a name that is already
/// bound overwrites the earlier binding: the table keeps one command per
/// name, the latest.
pub struct Commands<H> {
    entries: Vec<Binding<H>>,
}

spec fn bindings_map<H>(s: Seq<Binding<H>>) -> Map<Seq<char>, Command<H>>
    decreases s.len(),
{
    if s.len() == 0 {
        Map::empty()
    } else {
        bindings_map(s.drop_last()).insert(s.last().name@, s.last().command)
    }
}

impl<H> View for Commands<H> {
    type V = Map<Seq<char>, Command<H>>;

    closed spec fn view(&self) -> Map<Seq<char>, Command<H>> {
        bindings_map(self.entries@)
    }
}

proof fn lemma_bindings_map_contains<H>(s: Seq<Binding<H>>, n: Seq<char>)
    ensures
        bindings_map(s).contains_key(n) <==> exists|i: int| 0 <= i < s.len() && s[i].name@ == n,
    decreases s.len(),
{
    if s.len() > 0 {
        lemma_bindings_map_contains(s.drop_last(), n);
        if s.last().name@ == n {
            assert(s[s.len() - 1].name@ == n);
        } else if bindings_map(s).contains_key(n) {
            let i = choose|i: int| 0 <= i < s.drop_last().len() && s.drop_last()[i].name@ == n;
            assert(s[i].name@ == n);
        } else {
            assert(forall|i: int| 0 <= i < s.len() - 1 ==> s[i] == s.drop_last()[i]);
        }
    }
}

proof fn lemma_bindings_map_at<H>(s: Seq<Binding<H>>, i: int)
    requires
        0 <= i < s.len(),
        forall|j: int, k: int| 0 <= j < k < s.len() ==> s[j].name@ != s[k].name@,
    ensures
        bindings_map(s).contains_key(s[i].name@),
        bindings_map(s)[s[i].name@] == s[i].command,
    decreases s.len(),
{
    if i == s.len() - 1 {
        lemma_bindings_map_contains(s, s[i].name@);
    } else {
        assert(forall|j: int, k: int|
            0 <= j < k < s.drop_last().len() ==> s.drop_last()[j].name@ != s.drop_last()[k].name@);
        lemma_bindings_map_at(s.drop_last(), i);
        assert(s.last().name@ != s[i].name@);
    }
}

proof fn lemma_bindings_map_update<H>(s: Seq<Binding<H>>, i: int, b: Binding<H>)
    requires
        0 <= i < s.len(),
        forall|j: int, k: int| 0 <= j < k < s.len() ==> s[j].name@ != s[k].name@,
        s[i].name@ == b.name@,
    ensures
        bindings_map(s.update(i, b)) == bindings_map(s).insert(b.name@, b.command),
    decreases s.len(),
{
    let t = s.update(i, b);
    if i == s.len() - 1 {
        assert(t.drop_last() =~= s.drop_last());
        assert(t.last() == b);
        assert(bindings_map(t) == bindings_map(s.drop_last()).insert(b.name@, b.command));
        assert(bindings_map(s).insert(b.name@, b.command) == bindings_map(
            s.drop_last(),
        ).insert(s.last().name@, s.last().command).insert(b.name@, b.command));
        assert(bindings_map(s.drop_last()).insert(b.name@, b.command) =~= bindings_map(
            s.drop_last(),
        ).insert(s.last().name@, s.last().command).insert(b.name@, b.command));
    } else {
        assert(t.drop_last() =~= s.drop_last().update(i, b));
        assert(t.last() == s.last());
        assert(forall|j: int, k: int|
            0 <= j < k < s.drop_last().len() ==> s.drop_last()[j].name@ != s.drop_last()[k].name@);
        assert(s.drop_last()[i] == s[i]);
        lemma_bindings_map_update(s.drop_last(), i, b);
        // the two inserted keys differ, so the inserts commute
        assert(s.last().name@ != b.name@);
        assert(bindings_map(s.drop_last()).insert(b.name@, b.command).insert(
            s.last().name@,
            s.last().command,
        ) =~= bindings_map(s.drop_last()).insert(s.last().name@, s.last().command).insert(
            b.name@,
            b.command,
        ));
    }
}

impl<H> Commands<H> {
    /// Names are keys: no two bindings share one.
    pub closed spec fn wf(self) -> bool {
        forall|j: int, k: int|
            0 <= j < k < self.entries@.len() ==> self.entries@[j].name@ != self.entries@[k].name@
    }

    /// An empty table.
    pub fn new() -> (r: Commands<H>)
        ensures
            r.wf(),
            r@ == Map::<Seq<char>, Command<H>>::empty(),
    {
        Commands { entries: Vec::new() }
    }

    /// Binds `name` to `command`. A name registered before is overwritten:
    /// the table retains only the latest binding for it.
    pub fn register(&mut self, name: String, command: Command<H>)
        requires
            old(self).wf(),
        ensures
            final(self).wf(),
            final(self)@ == old(self)@.insert(name@, command),
    {
        let mut i: usize = 0;
        while i < self.entries.len()
            invariant
                self.wf(),
                self == old(self),
                i <= self.entries@.len(),
                forall|j: int| 0 <= j < i ==> self.entries@[j].name@ != name@,
            decreases self.entries@.len() - i,
        {
            if self.entries[i].name == name {
                let ghost pre = self.entries@;
                self.entries.set(i, Binding { name, command });
                proof {
                    lemma_bindings_map_update(pre, i as int, self.entries@[i as int]);
                    assert(forall|j: int, k: int|
                        0 <= j < k < self.entries@.len() ==> self.entries@[j].name@
                            != self.entries@[k].name@);
                }
                return ;
            }
            i = i + 1;
        }
        let ghost pre = self.entries@;
        self.entries.push(Binding { name, command });
        proof {
            lemma_bindings_map_contains(pre, self.entries@.last().name@);
            assert(self.entries@.drop_last() =~= pre);
            assert(forall|j: int, k: int|
                0 <= j < k < self.entries@.len() ==> self.entries@[j].name@
                    != self.entries@[k].name@);
        }
    }

    /// Looks a command name up: the command bound to it, or `None` when the
    /// name is not registered.
    pub fn resolve(&self, name: &String) -> (r: Option<&Command<H>>)
        requires
            self.wf(),
        ensures
            match r {
                Some(c) => self@.contains_key(name@) && *c == self@[name@],
                None => !self@.contains_key(name@),
            },
    {
        let mut i: usize = 0;
        while i < self.entries.len()
            invariant
                self.wf(),
                i <= self.entries@.len(),
                forall|j: int| 0 <= j < i ==> self.entries@[j].name@ != name@,
            decreases self.entries@.len() - i,
        {
            if self.entries[i].name == *name {
                proof {
                    lemma_bindings_map_at(self.entries@, i as int);
                }
                return Some(&self.entries[i].command);
            }
            i = i + 1;
        }
        proof {
            lemma_bindings_map_contains(self.entries@, name@);
        }
        None
    }
}

} // verus!
