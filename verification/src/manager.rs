use vstd::prelude::*;

use crate::errors::PluginError;
use crate::plugin::Plugin;
use crate::plugin::RuntimeConfig;
use crate::text::str_eq;

verus! {

/// The executor registered under `name`, by first match; the registry
/// discipline keeps names unique, so the first match is the only one.
pub open spec fn lookup_in<E>(entries: Seq<(String, E)>, name: Seq<char>) -> Option<E>
    decreases entries.len(),
{
    if entries.len() == 0 {
        None
    } else if entries[0].0@ == name {
        Some(entries[0].1)
    } else {
        lookup_in(entries.drop_first(), name)
    }
}

/// A lookup misses exactly when no entry carries the name.
pub proof fn lemma_lookup_in_none_iff<E>(entries: Seq<(String, E)>, name: Seq<char>)
    ensures
        (lookup_in(entries, name) is None) <==> (forall|i: int|
            0 <= i < entries.len() ==> (#[trigger] entries[i]).0@ != name),
    decreases entries.len(),
{
    if entries.len() > 0 {
        lemma_lookup_in_none_iff(entries.drop_first(), name);
        assert(forall|i: int|
            1 <= i < entries.len() ==> #[trigger] entries[i] == entries.drop_first()[i - 1]);
    }
}

/// How a lookup reads an entry appended at the back: an existing entry
/// under the name still wins; otherwise the new entry is found exactly
/// when it carries the name.
pub proof fn lemma_lookup_in_push<E>(entries: Seq<(String, E)>, x: (String, E), name: Seq<char>)
    ensures
        lookup_in(entries.push(x), name) == (if lookup_in(entries, name) is Some {
            lookup_in(entries, name)
        } else if x.0@ == name {
            Some(x.1)
        } else {
            None::<E>
        }),
    decreases entries.len(),
{
    let pushed = entries.push(x);
    assert(pushed[entries.len() as int] == x);
    if entries.len() == 0 {
        assert(pushed[0] == x);
        if x.0@ == name {
            assert(lookup_in(pushed, name) == Some(x.1));
        } else {
            assert(pushed.drop_first() =~= Seq::<(String, E)>::empty());
            assert(lookup_in(pushed.drop_first(), name) is None);
            assert(lookup_in(pushed, name) is None);
        }
    } else {
        assert(pushed[0] == entries[0]);
        assert(pushed.drop_first() =~= entries.drop_first().push(x));
        lemma_lookup_in_push(entries.drop_first(), x, name);
        if entries[0].0@ == name {
            assert(lookup_in(pushed, name) == Some(entries[0].1));
            assert(lookup_in(entries, name) == Some(entries[0].1));
        } else {
            assert(lookup_in(pushed, name) == lookup_in(pushed.drop_first(), name));
            assert(lookup_in(entries, name) == lookup_in(entries.drop_first(), name));
        }
    }
}

/// Resolves a named capability to a runnable executor, regardless of
/// whether that executor is compiled into the host process or constructed
/// from an externally compiled shared object.
///
/// Each registry entry owns its executor together with whatever library
/// handle backs it, as one unit, so that dropping an entry drops the
/// executor before its library could be unmapped.
///
/// The registry stores one shared executor per name, so callers running
/// concurrently must serialize access to a given name; handing out
/// independent instances per call is a documented limitation, not a
/// guarantee.
#[derive(Debug)]
pub struct PluginManager<E: Plugin> {
    /// The registry: name and executor pairs, in insertion order.
    pub plugins: Vec<(String, E)>,
}

impl<E: Plugin> PluginManager<E> {
    /// The registry's contents, in insertion order.
    pub open spec fn entries(&self) -> Seq<(String, E)> {
        self.plugins@
    }

    /// Whether some executor is registered under `name`.
    pub open spec fn has(&self, name: Seq<char>) -> bool {
        lookup_in(self.entries(), name) is Some
    }

    /// The registry discipline: no two entries share a name.
    pub open spec fn wf(&self) -> bool {
        forall|i: int, j: int|
            #![trigger self.entries()[i], self.entries()[j]]
            0 <= i < j < self.entries().len() ==> self.entries()[i].0@ != self.entries()[j].0@
    }

    /// An empty registry.
    pub fn new() -> (r: Self)
        ensures
            r.entries().len() == 0,
            r.wf(),
    {
        PluginManager { plugins: Vec::new() }
    }

    /// Number of registered plugins; each entry also accounts for the one
    /// library handle its executor may own.
    pub fn plugin_count(&self) -> (r: usize)
        ensures
            r == self.entries().len(),
    {
        self.plugins.len()
    }

    /// Looks `plugin_name` up in the fixed, compile-time table of built-in
    /// plugin artifacts; the table currently holds the shell engine alone.
    /// Searching a workspace or fetching from a remote registry are noted
    /// extension points, not implemented behavior.
    pub fn find_plugin_library(plugin_name: &str) -> (r: Result<String, PluginError>)
        ensures
            plugin_name@ == "shell"@ ==> (r matches Ok(p) && p@
                == "plugins/artifacts/libanything_plugin_shell.dylib"@),
            plugin_name@ != "shell"@ ==> (r matches Err(PluginError::NotFound(n)) && n@
                == plugin_name@),
    {
        if str_eq(plugin_name, "shell") {
            Ok("plugins/artifacts/libanything_plugin_shell.dylib".to_owned())
        } else {
            Err(PluginError::NotFound(plugin_name.to_owned()))
        }
    }

    /// Read-only lookup of an already loaded plugin by name; fails with
    /// `NotFound` exactly when no executor is registered under the name.
    pub fn get_plugin(&self, plugin_name: &str) -> (r: Result<&E, PluginError>)
        ensures
            match r {
                Ok(e) => lookup_in(self.entries(), plugin_name@) == Some(*e),
                Err(err) => !self.has(plugin_name@) && (err matches PluginError::NotFound(n) && n@
                    == plugin_name@),
            },
    {
        proof {
            assert(self.entries().skip(0) =~= self.entries());
        }
        let mut i: usize = 0;
        while i < self.plugins.len()
            invariant
                i <= self.plugins.len(),
                lookup_in(self.entries(), plugin_name@) == lookup_in(
                    self.entries().skip(i as int),
                    plugin_name@,
                ),
            decreases self.plugins.len() - i,
        {
            proof {
                assert(self.entries().skip(i as int)[0] == self.entries()[i as int]);
            }
            if str_eq(self.plugins[i].0.as_str(), plugin_name) {
                return Ok(&self.plugins[i].1);
            }
            proof {
                assert(self.entries().skip(i as int).drop_first() =~= self.entries().skip(
                    i as int + 1,
                ));
            }
            i += 1;
        }
        proof {
            assert(self.entries().skip(i as int) =~= Seq::<(String, E)>::empty());
        }
        Err(PluginError::NotFound(plugin_name.to_owned()))
    }

    /// Registers the executor that `loader` constructs under `name`,
    /// after running its one-time `on_load` hook with the forwarded
    /// configuration.
    ///
    /// Idempotent: when an executor is already registered under `name`,
    /// the call succeeds without invoking the loader, so nothing is
    /// re-opened and the registry keeps exactly one entry for the name.
    /// A failing loader leaves no partial registry entry.
    pub fn load_plugin<F: FnOnce() -> Result<E, PluginError>>(
        &mut self,
        name: &str,
        loader: F,
        config: &RuntimeConfig,
    ) -> (r: Result<(), PluginError>)
        requires
            old(self).wf(),
            call_requires(loader, ()),
        ensures
            final(self).wf(),
            final(self).has(name@) <==> (old(self).has(name@) || r is Ok),
            old(self).has(name@) ==> (r is Ok && final(self).entries() == old(self).entries()),
            r is Err ==> final(self).entries() == old(self).entries(),
            r matches Err(err) ==> !old(self).has(name@) && call_ensures(loader, (), Err(err)),
            (!old(self).has(name@) && r is Ok) ==> {
                &&& final(self).entries().drop_last() == old(self).entries()
                &&& final(self).entries().len() == old(self).entries().len() + 1
                &&& final(self).entries().last().0@ == name@
                &&& exists|e: E|
                    #[trigger] call_ensures(loader, (), Ok(e))
                        && final(self).entries().last().1.name_spec() == e.name_spec()
                &&& forall|n: Seq<char>|
                    final(self).has(n) <==> (old(self).has(n) || n == name@)
            },
    {
        if self.get_plugin(name).is_ok() {
            return Ok(());
        }
        match loader() {
            Err(e) => Err(e),
            Ok(mut plugin) => {
                plugin.on_load(config.clone());
                let ghost pre = self.plugins@;
                let entry = (name.to_owned(), plugin);
                self.plugins.push(entry);
                proof {
                    assert(self.plugins@.drop_last() =~= pre);
                    lemma_lookup_in_none_iff(pre, name@);
                    assert forall|n: Seq<char>| #[trigger]
                        lookup_in(self.plugins@, n) is Some <==> (lookup_in(pre, n) is Some || n
                        == name@) by {
                        lemma_lookup_in_push(pre, self.plugins@.last(), n);
                    }
                    assert forall|i: int, j: int|
                        0 <= i < j < self.plugins@.len() implies (#[trigger] self.plugins@[i]).0@
                        != (#[trigger] self.plugins@[j]).0@ by {
                        if j == self.plugins@.len() - 1 {
                            assert(self.plugins@[i] == pre[i]);
                        } else {
                            assert(self.plugins@[i] == pre[i]);
                            assert(self.plugins@[j] == pre[j]);
                        }
                    }
                }
                Ok(())
            },
        }
    }

    /// Drains the registry: invokes `on_unload` once on every executor, in
    /// insertion order, then drops every entry (and with it every retained
    /// library handle). Total: every hook runs even though none has an
    /// error channel. On an already empty registry this is a no-op that
    /// invokes no hook at all, so a second teardown in succession is safe.
    pub fn unload(&mut self) -> (hook_calls: Ghost<nat>)
        ensures
            final(self).entries().len() == 0,
            final(self).wf(),
            hook_calls@ == old(self).entries().len(),
    {
        let ghost n = self.plugins@.len();
        let mut i: usize = 0;
        while i < self.plugins.len()
            invariant
                i <= self.plugins.len(),
            decreases self.plugins.len() - i,
        {
            let pair = &self.plugins[i];
            pair.1.on_unload();
            i += 1;
        }
        self.plugins.clear();
        Ghost(n)
    }
}

/// A well-formed registry holds at most one entry per name: together with
/// the idempotence of `load_plugin`, loading one name twice leaves exactly
/// one entry for it.
pub proof fn lemma_registry_at_most_one_entry<E: Plugin>(
    m: PluginManager<E>,
    name: Seq<char>,
    i: int,
    j: int,
)
    requires
        m.wf(),
        0 <= i < m.entries().len(),
        0 <= j < m.entries().len(),
        m.entries()[i].0@ == name,
        m.entries()[j].0@ == name,
    ensures
        i == j,
{
}

/// In a well-formed registry, any entry carrying a name is the one the
/// lookup returns: repeated `get_plugin` calls on an unchanged registry
/// all return that same logical executor.
pub proof fn lemma_lookup_finds_unique_entry<E: Plugin>(
    m: PluginManager<E>,
    name: Seq<char>,
    i: int,
)
    requires
        m.wf(),
        0 <= i < m.entries().len(),
        m.entries()[i].0@ == name,
    ensures
        lookup_in(m.entries(), name) == Some(m.entries()[i].1),
{
    lemma_lookup_in_unique(m.entries(), name, i);
}

/// Helper for [`lemma_lookup_finds_unique_entry`], by induction over the
/// entries.
proof fn lemma_lookup_in_unique<E>(entries: Seq<(String, E)>, name: Seq<char>, i: int)
    requires
        forall|p: int, q: int|
            #![trigger entries[p], entries[q]]
            0 <= p < q < entries.len() ==> entries[p].0@ != entries[q].0@,
        0 <= i < entries.len(),
        entries[i].0@ == name,
    ensures
        lookup_in(entries, name) == Some(entries[i].1),
    decreases entries.len(),
{
    if i == 0 {
    } else {
        assert(entries[0].0@ != name);
        assert(forall|p: int|
            1 <= p < entries.len() ==> #[trigger] entries[p] == entries.drop_first()[p - 1]);
        lemma_lookup_in_unique(entries.drop_first(), name, i - 1);
    }
}

} // verus!
