//! The registry that owns every active plugin, built in or loaded from a
//! shared library, keyed by the plugin's id.
//!
//! Each plugin is stored with the descriptor it gave when it was registered;
//! that descriptor is what `describe` answers afterwards, so the key and the
//! descriptor's id always agree. Registering an id that is already present
//! replaces the earlier plugin in its place (last registration wins), on every
//! path that registers.

use crate::contract::Plugin;
use crate::text::{chars_of, rfind, rfind_bounds, rfind_char, same_text, slice_of, string_of};
use vstd::prelude::*;

verus! {

/// A plugin together with the descriptor it was registered under.
pub struct RegisteredPlugin<P> {
    pub info: Plugin,
    pub plugin: P,
}

impl<P> RegisteredPlugin<P> {
    /// The descriptor of the plugin: the one it gave when it was registered.
    pub fn describe(&self) -> (r: Plugin)
        ensures
            r.same_as(&self.info),
    {
        self.info.duplicate()
    }
}

/// Why a registration was refused.
#[derive(Clone, Copy, Debug, PartialEq, Eq, Structural)]
pub enum RegistryError {
    /// The id under which a plugin was offered is not the id it describes.
    IdMismatch,
}

/// The key of a registered plugin.
pub open spec fn key_of<P>(e: RegisteredPlugin<P>) -> Seq<char> {
    e.info.id@
}

/// No two plugins share a key.
pub open spec fn unique_keys<P>(s: Seq<RegisteredPlugin<P>>) -> bool {
    forall|i: int, j: int| 0 <= i < j < s.len() ==> s[i].info.id@ != s[j].info.id@
}

/// Some plugin is stored under `id`.
pub open spec fn has_key<P>(s: Seq<RegisteredPlugin<P>>, id: Seq<char>) -> bool {
    exists|i: int| 0 <= i < s.len() && s[i].info.id@ == id
}

/// The position of the plugin stored under `id`, where there is one.
pub open spec fn slot_of<P>(s: Seq<RegisteredPlugin<P>>, id: Seq<char>) -> int {
    choose|i: int| 0 <= i < s.len() && s[i].info.id@ == id
}

/// The entries after `e` is registered: it takes the place of the entry with
/// its key, or comes last where there is none.
pub open spec fn with_entry<P>(s: Seq<RegisteredPlugin<P>>, e: RegisteredPlugin<P>) -> Seq<
    RegisteredPlugin<P>,
> {
    if has_key(s, e.info.id@) {
        s.update(slot_of(s, e.info.id@), e)
    } else {
        s.push(e)
    }
}

/// The extension of a file name: the text after its last dot, where that dot
/// is not the name's first character.
pub open spec fn extension_of(name: Seq<char>) -> Option<Seq<char>> {
    let k = rfind(name, '.');
    if k <= 0 {
        None
    } else {
        Some(name.subrange(k + 1, name.len() as int))
    }
}

/// A file name that marks a shared library on one of the supported platforms.
pub open spec fn is_library_name(name: Seq<char>) -> bool {
    match extension_of(name) {
        Some(e) => e == "dll"@ || e == "so"@ || e == "dylib"@,
        None => false,
    }
}

/// Whether a file found in the plugin directory is a candidate library: its
/// extension is `dll`, `so` or `dylib`.
pub fn is_plugin_library(file_name: &str) -> (r: bool)
    ensures
        r == is_library_name(file_name@),
{
    let chars = chars_of(file_name);
    let k = match rfind_char(&chars, '.') {
        None => {
            return false;
        },
        Some(k) => k,
    };
    if k == 0 {
        return false;
    }
    proof {
        rfind_bounds(chars@, '.');
    }
    let n = chars.len();
    assert(k < n);
    let ext = string_of(&slice_of(&chars, k + 1, n));
    same_text(ext.as_str(), "dll") || same_text(ext.as_str(), "so") || same_text(
        ext.as_str(),
        "dylib",
    )
}

/// What the host found when it tried to load one shared library.
pub enum LibraryProbe<P> {
    /// The library could not be opened; the reason is given.
    OpenFailed(String),
    /// The library opened but lacks the named entry point; it was closed again.
    MissingEntryPoint(String),
    /// The entry points resolved, but the plugin's own `describe` failed.
    BootstrapFailed,
    /// The entry points resolved and `describe` gave this descriptor.
    Loaded(Plugin, P),
}

/// Why one library was not registered. Such a failure concerns that library
/// alone: discovery goes on with the rest.
#[derive(Clone, Debug)]
pub enum LoadError {
    OpenFailed(String),
    MissingEntryPoint(String),
    BootstrapFailed,
}

/// The entries after one probe: a loaded library is registered under the id
/// it describes, a failed one changes nothing.
pub open spec fn after_probe<P>(s: Seq<RegisteredPlugin<P>>, probe: LibraryProbe<P>) -> Seq<
    RegisteredPlugin<P>,
> {
    match probe {
        LibraryProbe::Loaded(info, plugin) => with_entry(s, RegisteredPlugin { info, plugin }),
        _ => s,
    }
}

/// The entries after a sequence of probes, taken in order.
pub open spec fn after_probes<P>(s: Seq<RegisteredPlugin<P>>, probes: Seq<LibraryProbe<P>>) -> Seq<
    RegisteredPlugin<P>,
>
    decreases probes.len(),
{
    if probes.len() == 0 {
        s
    } else {
        after_probe(after_probes(s, probes.drop_last()), probes.last())
    }
}

/// The report on one probe.
pub open spec fn load_report<P>(probe: LibraryProbe<P>, r: Result<(), LoadError>) -> bool {
    match probe {
        LibraryProbe::Loaded(_, _) => r is Ok,
        LibraryProbe::OpenFailed(why) => r matches Err(LoadError::OpenFailed(w)) && w@ == why@,
        LibraryProbe::MissingEntryPoint(name) => r matches Err(LoadError::MissingEntryPoint(n))
            && n@ == name@,
        LibraryProbe::BootstrapFailed => r matches Err(LoadError::BootstrapFailed),
    }
}

/// The owner of all active plugins.
pub struct DynamicPluginLoader<P> {
    entries: Vec<RegisteredPlugin<P>>,
}

impl<P> DynamicPluginLoader<P> {
    /// The registered plugins, in registration order.
    pub closed spec fn entries(&self) -> Seq<RegisteredPlugin<P>> {
        self.entries@
    }

    /// Keys are unique.
    pub open spec fn wf(&self) -> bool {
        unique_keys(self.entries())
    }

    /// An empty registry.
    pub fn new() -> (r: Self)
        ensures
            r.wf(),
            r.entries().len() == 0,
    {
        DynamicPluginLoader { entries: Vec::new() }
    }

    /// Stores `e`, in the place of the plugin with the same key if there is one.
    fn insert(&mut self, e: RegisteredPlugin<P>)
        requires
            old(self).wf(),
        ensures
            final(self).wf(),
            final(self).entries() == with_entry(old(self).entries(), e),
    {
        let ghost id = e.info.id@;
        match self.position(e.info.id.as_str()) {
            Some(i) => {
                proof {
                    let j = slot_of(self.entries@, id);
                    assert(0 <= j < self.entries@.len() && self.entries@[j].info.id@ == id);
                    assert(j == i as int);
                }
                self.entries.set(i, e);
            },
            None => {
                self.entries.push(e);
            },
        }
    }

    /// Registers a plugin that is compiled into the host under `id`, with the
    /// descriptor it gives. The registration is refused when `id` is not the
    /// descriptor's id; otherwise an earlier plugin with that id is replaced.
    pub fn register_plugin(&mut self, id: String, info: Plugin, plugin: P) -> (r: Result<
        (),
        RegistryError,
    >)
        requires
            old(self).wf(),
        ensures
            final(self).wf(),
            id@ == info.id@ ==> r is Ok && final(self).entries() == with_entry(
                old(self).entries(),
                (RegisteredPlugin { info, plugin }),
            ),
            id@ != info.id@ ==> r == Err::<(), RegistryError>(RegistryError::IdMismatch)
                && final(self).entries() == old(self).entries(),
    {
        if id != info.id {
            return Err(RegistryError::IdMismatch);
        }
        self.insert(RegisteredPlugin { info, plugin });
        Ok(())
    }

    /// The plugin registered under `id`, if any; absence is a valid answer.
    pub fn get_plugin(&self, id: &str) -> (r: Option<&RegisteredPlugin<P>>)
        requires
            self.wf(),
        ensures
            match r {
                None => !has_key(self.entries(), id@),
                Some(e) => has_key(self.entries(), id@) && *e == self.entries()[slot_of(
                    self.entries(),
                    id@,
                )],
            },
    {
        match self.position(id) {
            None => None,
            Some(i) => {
                proof {
                    let j = slot_of(self.entries@, id@);
                    assert(0 <= j < self.entries@.len() && self.entries@[j].info.id@ == id@);
                    assert(j == i as int);
                }
                Some(&self.entries[i])
            },
        }
    }

    /// The descriptors of all registered plugins, in registration order.
    pub fn list_plugins(&self) -> (r: Vec<Plugin>)
        ensures
            r@.len() == self.entries().len(),
            forall|i: int| 0 <= i < r@.len() ==> (#[trigger] r@[i]).same_as(&self.entries()[i].info),
    {
        let mut out: Vec<Plugin> = Vec::new();
        let mut i: usize = 0;
        while i < self.entries.len()
            invariant
                i <= self.entries@.len(),
                out@.len() == i,
                forall|j: int| 0 <= j < i ==> (#[trigger] out@[j]).same_as(&self.entries@[j].info),
            decreases self.entries@.len() - i,
        {
            out.push(self.entries[i].describe());
            i = i + 1;
        }
        out
    }

    /// Registers the plugin of one probed library under the id it describes.
    /// A library that failed to open, lacks an entry point or failed to
    /// describe itself is reported and leaves the registry as it was.
    pub fn load_plugin_library(&mut self, probe: LibraryProbe<P>) -> (r: Result<(), LoadError>)
        requires
            old(self).wf(),
        ensures
            final(self).wf(),
            final(self).entries() == after_probe(old(self).entries(), probe),
            load_report(probe, r),
    {
        match probe {
            LibraryProbe::OpenFailed(why) => Err(LoadError::OpenFailed(why)),
            LibraryProbe::MissingEntryPoint(name) => Err(LoadError::MissingEntryPoint(name)),
            LibraryProbe::BootstrapFailed => Err(LoadError::BootstrapFailed),
            LibraryProbe::Loaded(info, plugin) => {
                self.insert(RegisteredPlugin { info, plugin });
                Ok(())
            },
        }
    }

    /// Registers the plugins of the libraries found in one directory, in the
    /// order found, and reports on each. A failure never stops the pass.
    pub fn load_plugins_from_directory(&mut self, probes: Vec<LibraryProbe<P>>) -> (r: Vec<
        Result<(), LoadError>,
    >)
        requires
            old(self).wf(),
        ensures
            final(self).wf(),
            final(self).entries() == after_probes(old(self).entries(), probes@),
            r@.len() == probes@.len(),
            forall|i: int| 0 <= i < r@.len() ==> load_report(probes@[i], #[trigger] r@[i]),
    {
        let ghost all = probes@;
        let ghost start = self.entries();
        let mut rest = probes;
        let mut reports: Vec<Result<(), LoadError>> = Vec::new();
        while rest.len() > 0
            invariant
                self.wf(),
                reports@.len() + rest@.len() == all.len(),
                rest@ == all.subrange(reports@.len() as int, all.len() as int),
                self.entries() == after_probes(start, all.subrange(0, reports@.len() as int)),
                forall|i: int| 0 <= i < reports@.len() ==> load_report(all[i], #[trigger] reports@[i]),
            decreases rest@.len(),
        {
            let ghost k = reports@.len() as int;
            let probe = rest.remove(0);
            let report = self.load_plugin_library(probe);
            reports.push(report);
            proof {
                assert(all.subrange(0, k + 1).drop_last() =~= all.subrange(0, k));
                assert(all.subrange(0, k + 1).last() == all[k]);
                assert(rest@ =~= all.subrange(k + 1, all.len() as int));
            }
        }
        proof {
            assert(all.subrange(0, all.len() as int) =~= all);
        }
        reports
    }

    /// The position of the plugin registered under `id`, if any.
    fn position(&self, id: &str) -> (r: Option<usize>)
        ensures
            match r {
                None => !has_key(self.entries(), id@),
                Some(i) => i < self.entries().len() && self.entries()[i as int].info.id@ == id@,
            },
    {
        let mut i: usize = 0;
        while i < self.entries.len()
            invariant
                i <= self.entries@.len(),
                forall|j: int| 0 <= j < i ==> self.entries@[j].info.id@ != id@,
            decreases self.entries@.len() - i,
        {
            if same_text(self.entries[i].info.id.as_str(), id) {
                return Some(i);
            }
            i = i + 1;
        }
        None
    }
}

} // verus!

verus! {

/// Every registered id leads to a plugin whose descriptor names that id:
/// looking a plugin up and describing it gives back the id it was found by.
pub proof fn registry_keys_agree<P>(registry: &DynamicPluginLoader<P>, id: Seq<char>)
    requires
        registry.wf(),
        has_key(registry.entries(), id),
    ensures
        key_of(registry.entries()[slot_of(registry.entries(), id)]) == id,
        forall|d: Plugin|
            d.same_as(&registry.entries()[slot_of(registry.entries(), id)].info) ==> d.id@ == id,
{
    let s = registry.entries();
    let i = slot_of(s, id);
    assert(0 <= i < s.len() && s[i].info.id@ == id);
}

} // verus!

verus! {

/// A directory scan that finds one well-formed library and one that lacks an
/// entry point, in either order, registers exactly the well-formed plugin;
/// the other is only reported.
pub proof fn malformed_library_is_skipped<P>(info: Plugin, plugin: P, missing: String)
    ensures
        after_probes(
            Seq::empty(),
            seq![LibraryProbe::Loaded(info, plugin), LibraryProbe::MissingEntryPoint(missing)],
        ) == seq![RegisteredPlugin { info, plugin }],
        after_probes(
            Seq::empty(),
            seq![LibraryProbe::MissingEntryPoint(missing), LibraryProbe::Loaded(info, plugin)],
        ) == seq![RegisteredPlugin { info, plugin }],
        load_report(LibraryProbe::<P>::MissingEntryPoint(missing), Err(LoadError::MissingEntryPoint(missing))),
{
    let e = RegisteredPlugin { info, plugin };
    let good = LibraryProbe::Loaded(info, plugin);
    let bad = LibraryProbe::<P>::MissingEntryPoint(missing);
    let empty = Seq::<RegisteredPlugin<P>>::empty();
    let none = Seq::<LibraryProbe<P>>::empty();
    assert(!has_key(empty, info.id@));
    assert(empty.push(e) =~= seq![e]);
    assert(after_probes(empty, none) == empty);
    assert(seq![good].drop_last() =~= none);
    assert(after_probes(empty, seq![good]) == after_probe(empty, good));
    assert(after_probe(empty, good) == seq![e]);
    assert(seq![good, bad].drop_last() =~= seq![good]);
    assert(after_probes(empty, seq![good, bad]) == after_probe(seq![e], bad));
    assert(seq![bad].drop_last() =~= none);
    assert(after_probes(empty, seq![bad]) == after_probe(empty, bad));
    assert(seq![bad, good].drop_last() =~= seq![bad]);
    assert(after_probes(empty, seq![bad, good]) == after_probe(empty, good));
}

} // verus!
