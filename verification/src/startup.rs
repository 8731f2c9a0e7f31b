//! Launch-at-startup policy: the Run-key value name, the quoted command line
//! and the enable/disable step over any startup store.
use vstd::prelude::*;
use crate::text::{concat3, contains_char, owned};

verus! {

/// Value name written under the Windows Run key.
pub const RUN_VALUE_NAME: &'static str = "PicooCamera";

/// A place where the operating system keeps launch-at-startup entries.
pub trait StartupStore {
    /// The command registered under `name`, if any.
    spec fn entry(&self, name: Seq<char>) -> Option<Seq<char>>;

    /// `after` and `r` are a possible outcome of setting `name` to `command`
    /// in this store.
    spec fn set_done(&self, after: &Self, name: Seq<char>, command: Seq<char>, r: Result<(), String>) -> bool;

    /// `after` and `r` are a possible outcome of removing `name` from this
    /// store.
    spec fn remove_done(&self, after: &Self, name: Seq<char>, r: Result<(), String>) -> bool;

    fn get(&self, name: &str) -> (r: Option<String>)
        ensures
            match r {
                Some(v) => self.entry(name@) == Some(v@),
                None => self.entry(name@) is None,
            },
    ;

    fn set(&mut self, name: &str, command: &str) -> (r: Result<(), String>)
        ensures
            old(self).set_done(final(self), name@, command@, r),
            r is Ok ==> forall|n: Seq<char>|
                #[trigger] final(self).entry(n) == if n == name@ {
                    Some(command@)
                } else {
                    old(self).entry(n)
                },
    ;

    fn remove(&mut self, name: &str) -> (r: Result<(), String>)
        ensures
            old(self).remove_done(final(self), name@, r),
            r is Ok ==> forall|n: Seq<char>|
                #[trigger] final(self).entry(n) == if n == name@ {
                    None
                } else {
                    old(self).entry(n)
                },
    ;
}

/// The command of the earliest pair named `name`.
pub open spec fn lookup(entries: Seq<(String, String)>, name: Seq<char>) -> Option<Seq<char>>
    decreases entries.len(),
{
    if entries.len() == 0 {
        None
    } else {
        let earlier = lookup(entries.drop_last(), name);
        if earlier is Some {
            earlier
        } else if entries.last().0@ == name {
            Some(entries.last().1@)
        } else {
            None
        }
    }
}

proof fn lemma_lookup_push(entries: Seq<(String, String)>, e: (String, String), name: Seq<char>)
    ensures
        lookup(entries.push(e), name) == if lookup(entries, name) is Some {
            lookup(entries, name)
        } else if e.0@ == name {
            Some(e.1@)
        } else {
            None
        },
{
    assert(entries.push(e).drop_last() =~= entries);
}

proof fn lemma_lookup_found_prefix(entries: Seq<(String, String)>, n: int, name: Seq<char>)
    requires
        0 <= n <= entries.len(),
        lookup(entries.take(n), name) is Some,
    ensures
        lookup(entries, name) == lookup(entries.take(n), name),
    decreases entries.len() - n,
{
    if n < entries.len() {
        lemma_lookup_push(entries.take(n), entries[n], name);
        assert(entries.take(n + 1) =~= entries.take(n).push(entries[n]));
        lemma_lookup_found_prefix(entries, n + 1, name);
    } else {
        assert(entries.take(n) =~= entries);
    }
}

/// In-memory startup store.
#[derive(Debug, Clone)]
pub struct MemoryStartupStore {
    entries: Vec<(String, String)>,
}

impl MemoryStartupStore {
    /// The store's entries, as a function from value name to command.
    pub closed spec fn lookup_entry(&self, name: Seq<char>) -> Option<Seq<char>> {
        lookup(self.entries@, name)
    }

    /// An empty store.
    pub fn new() -> (r: Self)
        ensures
            forall|n: Seq<char>| #[trigger] r.lookup_entry(n) is None,
    {
        MemoryStartupStore { entries: Vec::new() }
    }

    /// The entries other than `name`, in their order.
    fn without(&self, name: &str) -> (r: Vec<(String, String)>)
        ensures
            lookup(r@, name@) is None,
            forall|n: Seq<char>| n != name@ ==> #[trigger] lookup(r@, n) == lookup(self.entries@, n),
    {
        let mut out: Vec<(String, String)> = Vec::new();
        let mut i: usize = 0;
        while i < self.entries.len()
            invariant
                i <= self.entries@.len(),
                lookup(out@, name@) is None,
                forall|n: Seq<char>|
                    n != name@ ==> #[trigger] lookup(out@, n) == lookup(self.entries@.take(i as int), n),
            decreases self.entries@.len() - i,
        {
            let e = &self.entries[i];
            let same = crate::receiver_runtime::equal_str(e.0.as_str(), name);
            let ghost before = out@;
            assert(self.entries@.take(i + 1) =~= self.entries@.take(i as int).push(self.entries@[i as int]));
            proof {
                assert forall|n: Seq<char>| true implies #[trigger] lookup(self.entries@.take(i + 1), n)
                    == (if lookup(self.entries@.take(i as int), n) is Some {
                    lookup(self.entries@.take(i as int), n)
                } else if self.entries@[i as int].0@ == n {
                    Some(self.entries@[i as int].1@)
                } else {
                    None
                }) by {
                    lemma_lookup_push(self.entries@.take(i as int), self.entries@[i as int], n);
                }
            }
            if !same {
                let copy = (e.0.clone(), e.1.clone());
                out.push(copy);
                proof {
                    assert forall|n: Seq<char>| true implies #[trigger] lookup(out@, n) == (if lookup(before, n) is Some {
                        lookup(before, n)
                    } else if copy.0@ == n {
                        Some(copy.1@)
                    } else {
                        None
                    }) by {
                        lemma_lookup_push(before, copy, n);
                    }
                }
            }
            i = i + 1;
        }
        assert(self.entries@.take(self.entries@.len() as int) =~= self.entries@);
        out
    }
}

impl StartupStore for MemoryStartupStore {
    open spec fn entry(&self, name: Seq<char>) -> Option<Seq<char>> {
        self.lookup_entry(name)
    }

    /// Setting always succeeds and changes exactly the value `name`.
    open spec fn set_done(&self, after: &Self, name: Seq<char>, command: Seq<char>, r: Result<(), String>) -> bool {
        r is Ok && forall|n: Seq<char>|
            #[trigger] after.lookup_entry(n) == if n == name {
                Some(command)
            } else {
                self.lookup_entry(n)
            }
    }

    /// Removing always succeeds and drops exactly the value `name`.
    open spec fn remove_done(&self, after: &Self, name: Seq<char>, r: Result<(), String>) -> bool {
        r is Ok && forall|n: Seq<char>|
            #[trigger] after.lookup_entry(n) == if n == name {
                None
            } else {
                self.lookup_entry(n)
            }
    }

    fn get(&self, name: &str) -> (r: Option<String>) {
        let mut i: usize = 0;
        while i < self.entries.len()
            invariant
                i <= self.entries@.len(),
                lookup(self.entries@.take(i as int), name@) is None,
            decreases self.entries@.len() - i,
        {
            proof {
                lemma_lookup_push(self.entries@.take(i as int), self.entries@[i as int], name@);
                assert(self.entries@.take(i + 1) =~= self.entries@.take(i as int).push(
                    self.entries@[i as int],
                ));
            }
            if crate::receiver_runtime::equal_str(self.entries[i].0.as_str(), name) {
                proof {
                    lemma_lookup_found_prefix(self.entries@, i + 1, name@);
                }
                return Some(self.entries[i].1.clone());
            }
            i = i + 1;
        }
        assert(self.entries@.take(self.entries@.len() as int) =~= self.entries@);
        None
    }

    fn set(&mut self, name: &str, command: &str) -> (r: Result<(), String>)
        ensures
            r is Ok,
    {
        let mut kept = self.without(name);
        let ghost before = kept@;
        let e = (owned(name), owned(command));
        kept.push(e);
        proof {
            assert forall|n: Seq<char>| true implies #[trigger] lookup(kept@, n) == (if n == name@ {
                Some(command@)
            } else {
                lookup(old(self).entries@, n)
            }) by {
                lemma_lookup_push(before, e, n);
            }
        }
        self.entries = kept;
        Ok(())
    }

    fn remove(&mut self, name: &str) -> (r: Result<(), String>)
        ensures
            r is Ok,
    {
        self.entries = self.without(name);
        Ok(())
    }
}

impl Default for MemoryStartupStore {
    fn default() -> (r: Self)
        ensures
            forall|n: Seq<char>| #[trigger] r.lookup_entry(n) is None,
    {
        Self::new()
    }
}

/// The Run-key command line for an executable path: quoted when it holds a
/// space.
pub open spec fn command_line(exe: Seq<char>) -> Seq<char> {
    if exe.contains(' ') {
        seq!['"'] + exe + seq!['"']
    } else {
        exe
    }
}

/// Quote an executable path for a Run-key command line.
pub fn startup_command_line(exe: &str) -> (r: String)
    ensures
        r@ == command_line(exe@),
{
    if contains_char(exe, ' ') {
        let r = concat3("\"", exe, "\"");
        proof {
            reveal_strlit("\"");
        }
        r
    } else {
        owned(exe)
    }
}

/// The change that a launch-at-startup preference asks of a store.
#[derive(Debug, Clone)]
pub enum StartupChange {
    /// Register `command` under `name`.
    Register { name: String, command: String },
    /// Remove the value `name`.
    Unregister { name: String },
}

/// Enabling registers the command line of `exe` under [`RUN_VALUE_NAME`];
/// disabling removes that value.
pub fn launch_at_startup_change(enabled: bool, exe: &str) -> (r: StartupChange)
    ensures
        enabled ==> (r matches StartupChange::Register { name, command } && name@ == RUN_VALUE_NAME@
            && command@ == command_line(exe@)),
        !enabled ==> (r matches StartupChange::Unregister { name } && name@ == RUN_VALUE_NAME@),
{
    if enabled {
        StartupChange::Register { name: owned(RUN_VALUE_NAME), command: startup_command_line(exe) }
    } else {
        StartupChange::Unregister { name: owned(RUN_VALUE_NAME) }
    }
}

/// Enable or disable launch-at-startup in `store`: enabling registers the
/// command line of `exe` under [`RUN_VALUE_NAME`], disabling removes that
/// value; no other value changes. A store failure is handed back.
pub fn apply_launch_at_startup<S: StartupStore>(store: &mut S, enabled: bool, exe: &str) -> (r: Result<(), String>)
    ensures
        enabled ==> old(store).set_done(final(store), RUN_VALUE_NAME@, command_line(exe@), r),
        !enabled ==> old(store).remove_done(final(store), RUN_VALUE_NAME@, r),
        r is Ok ==> forall|n: Seq<char>|
            #[trigger] final(store).entry(n) == if n == RUN_VALUE_NAME@ {
                if enabled {
                    Some(command_line(exe@))
                } else {
                    None
                }
            } else {
                old(store).entry(n)
            },
{
    match launch_at_startup_change(enabled, exe) {
        StartupChange::Register { name, command } => store.set(name.as_str(), command.as_str()),
        StartupChange::Unregister { name } => store.remove(name.as_str()),
    }
}

/// Enabling and then disabling launch-at-startup leaves no Run value behind
/// and restores every other value of the store.
pub proof fn lemma_enable_then_disable<S: StartupStore>(before: S, enabled: S, disabled: S, exe: Seq<char>)
    requires
        forall|n: Seq<char>|
            #[trigger] enabled.entry(n) == if n == RUN_VALUE_NAME@ {
                Some(command_line(exe))
            } else {
                before.entry(n)
            },
        forall|n: Seq<char>|
            #[trigger] disabled.entry(n) == if n == RUN_VALUE_NAME@ {
                None
            } else {
                enabled.entry(n)
            },
    ensures
        disabled.entry(RUN_VALUE_NAME@) is None,
        forall|n: Seq<char>| n != RUN_VALUE_NAME@ ==> #[trigger] disabled.entry(n) == before.entry(n),
{
    assert forall|n: Seq<char>| n != RUN_VALUE_NAME@ implies #[trigger] disabled.entry(n) == before.entry(n) by {
        assert(disabled.entry(n) == enabled.entry(n));
    }
}

/// On the in-memory store, enabling and then disabling launch-at-startup
/// both succeed, leave no Run value behind and restore every other value.
pub proof fn lemma_memory_store_enable_then_disable(
    before: MemoryStartupStore,
    enabled: MemoryStartupStore,
    disabled: MemoryStartupStore,
    exe: Seq<char>,
    r_enable: Result<(), String>,
    r_disable: Result<(), String>,
)
    requires
        before.set_done(&enabled, RUN_VALUE_NAME@, command_line(exe), r_enable),
        enabled.remove_done(&disabled, RUN_VALUE_NAME@, r_disable),
    ensures
        r_enable is Ok,
        r_disable is Ok,
        enabled.entry(RUN_VALUE_NAME@) == Some(command_line(exe)),
        disabled.entry(RUN_VALUE_NAME@) is None,
        forall|n: Seq<char>| n != RUN_VALUE_NAME@ ==> #[trigger] disabled.entry(n) == before.entry(n),
{
    assert(enabled.lookup_entry(RUN_VALUE_NAME@) == Some(command_line(exe)));
    assert(disabled.lookup_entry(RUN_VALUE_NAME@) is None);
    assert forall|n: Seq<char>| n != RUN_VALUE_NAME@ implies #[trigger] disabled.entry(n) == before.entry(n) by {
        assert(disabled.lookup_entry(n) == enabled.lookup_entry(n));
        assert(enabled.lookup_entry(n) == before.lookup_entry(n));
    }
}

} // verus!
