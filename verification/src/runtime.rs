//! The observable state of the native side of the boundary, held as an
//! explicit value.
//!
//! The native library serves this state process-wide: a global registry of
//! packed functions, a last-error channel, handle accounting, and the
//! function tables of loaded modules. This layer models exactly that
//! interface and threads one [`Runtime`] value through every operation that
//! would otherwise reach the process-wide state. Release and
//! argument-to-return conversion requests are logged, so that ownership
//! accounting is observable.

use vstd::prelude::*;

use vstd::pervasive::unreached;
use vstd::pervasive::VecAdditionalExecFns;

use crate::TVMError;

verus! {

/// One entry of a name-indexed function table: a name bound to the opaque
/// handle of a callee.
#[derive(Debug)]
pub struct RegEntry {
    /// The name the callee is registered under.
    pub name: String,
    /// The opaque handle of the callee.
    pub handle: u64,
}

/// Whether a name can cross the boundary: the convention carries names as C
/// strings, so a name with an interior NUL cannot travel. The resolution and
/// registration entry points require this of their arguments.
pub open spec fn nul_free(name: Seq<char>) -> bool {
    forall|i: int| 0 <= i < name.len() ==> name[i] != '\0'
}

/// The handle a name resolves to in a table, searching front to back.
pub open spec fn spec_lookup(entries: Seq<RegEntry>, name: Seq<char>) -> Option<u64>
    decreases entries.len(),
{
    if entries.len() == 0 {
        None
    } else if entries.first().name@ == name {
        Some(entries.first().handle)
    } else {
        spec_lookup(entries.drop_first(), name)
    }
}

/// Whether a table binds a name.
pub open spec fn spec_contains(entries: Seq<RegEntry>, name: Seq<char>) -> bool {
    spec_lookup(entries, name) is Some
}

/// The callable reference a name resolves to in a table: a binding to the
/// null reference resolves to nothing.
pub open spec fn spec_resolves(entries: Seq<RegEntry>, name: Seq<char>) -> Option<u64> {
    match spec_lookup(entries, name) {
        Some(h) => if h != 0 {
            Some(h)
        } else {
            None
        },
        None => None,
    }
}

/// The first index at which a table binds a name.
pub open spec fn spec_index_of(entries: Seq<RegEntry>, name: Seq<char>) -> int
    decreases entries.len(),
{
    if entries.len() == 0 {
        0
    } else if entries.first().name@ == name {
        0
    } else {
        1 + spec_index_of(entries.drop_first(), name)
    }
}

/// Whether a table binds every name at most once.
pub open spec fn names_unique(entries: Seq<RegEntry>) -> bool {
    forall|i: int, j: int|
        0 <= i < j < entries.len() ==> entries[i].name@ != entries[j].name@
}

/// What a registration does to a table: a collision without `override` is
/// refused and leaves the table as it was; a collision with `override`
/// replaces the binding in place; a fresh name is appended.
pub open spec fn spec_register(entries: Seq<RegEntry>, e: RegEntry, override_: bool) -> (Seq<
    RegEntry,
>, Result<(), TVMError>) {
    if spec_contains(entries, e.name@) {
        if override_ {
            (entries.update(spec_index_of(entries, e.name@), e), Ok(()))
        } else {
            (entries, Err(TVMError::DuplicateName { name: e.name }))
        }
    } else {
        (entries.push(e), Ok(()))
    }
}

/// A name is bound exactly when some entry carries it.
pub proof fn lemma_lookup_contains(entries: Seq<RegEntry>, name: Seq<char>)
    ensures
        spec_contains(entries, name) <==> exists|i: int|
            0 <= i < entries.len() && entries[i].name@ == name,
    decreases entries.len(),
{
    if entries.len() > 0 {
        lemma_lookup_contains(entries.drop_first(), name);
        if entries.first().name@ == name {
            assert(entries[0].name@ == name);
        } else if exists|i: int| 0 <= i < entries.len() && entries[i].name@ == name {
            let i = choose|i: int| 0 <= i < entries.len() && entries[i].name@ == name;
            assert(entries.drop_first()[i - 1].name@ == name);
        }
    }
}

/// Where a name is bound, the first index carrying it is in range, carries
/// it, and resolves to the handle the lookup gives.
pub proof fn lemma_index_of(entries: Seq<RegEntry>, name: Seq<char>)
    requires
        spec_contains(entries, name),
    ensures
        0 <= spec_index_of(entries, name) < entries.len(),
        entries[spec_index_of(entries, name)].name@ == name,
        spec_lookup(entries, name) == Some(entries[spec_index_of(entries, name)].handle),
        forall|j: int| 0 <= j < spec_index_of(entries, name) ==> entries[j].name@ != name,
    decreases entries.len(),
{
    if entries.len() > 0 && entries.first().name@ != name {
        lemma_index_of(entries.drop_first(), name);
        let i = spec_index_of(entries, name);
        assert(entries[i] == entries.drop_first()[i - 1]);
        assert forall|j: int| 0 <= j < i implies entries[j].name@ != name by {
            if j > 0 {
                assert(entries[j] == entries.drop_first()[j - 1]);
            }
        }
    }
}

/// Appending an entry resolves its name where the table did not bind it, and
/// leaves every bound name resolving as before.
pub proof fn lemma_lookup_push(entries: Seq<RegEntry>, e: RegEntry, name: Seq<char>)
    ensures
        spec_lookup(entries.push(e), name) == if spec_contains(entries, name) {
            spec_lookup(entries, name)
        } else if e.name@ == name {
            Some(e.handle)
        } else {
            None::<u64>
        },
    decreases entries.len(),
{
    if entries.len() == 0 {
        assert(entries.push(e).first() == e);
        assert(entries.push(e).drop_first() =~= Seq::<RegEntry>::empty());
        assert(spec_lookup(entries.push(e).drop_first(), name) is None);
        assert(!spec_contains(entries, name));
    } else {
        assert(entries.push(e).first() == entries.first());
        assert(entries.push(e).drop_first() =~= entries.drop_first().push(e));
        lemma_lookup_push(entries.drop_first(), e, name);
        assert(spec_lookup(entries.push(e), name) == if entries.first().name@ == name {
            Some(entries.first().handle)
        } else {
            spec_lookup(entries.drop_first().push(e), name)
        });
    }
}

/// Replacing the entry at a name's first index rebinds that name and leaves
/// every other name resolving as before.
pub proof fn lemma_lookup_update(entries: Seq<RegEntry>, e: RegEntry, name: Seq<char>)
    requires
        spec_contains(entries, e.name@),
        names_unique(entries),
    ensures
        spec_lookup(entries.update(spec_index_of(entries, e.name@), e), name) == if name == e.name@ {
            Some(e.handle)
        } else {
            spec_lookup(entries, name)
        },
    decreases entries.len(),
{
    lemma_index_of(entries, e.name@);
    let i = spec_index_of(entries, e.name@);
    if i == 0 {
        assert(entries.update(0, e).drop_first() =~= entries.drop_first());
    } else {
        assert(entries.update(i, e).drop_first() =~= entries.drop_first().update(i - 1, e));
        assert(names_unique(entries.drop_first())) by {
            assert(forall|x: int, y: int|
                0 <= x < y < entries.drop_first().len() ==> entries.drop_first()[x]
                    == entries[x + 1] && entries.drop_first()[y] == entries[y + 1]);
        }
        lemma_lookup_update(entries.drop_first(), e, name);
    }
}

/// Registration preserves at-most-once binding.
pub proof fn lemma_register_preserves_unique(entries: Seq<RegEntry>, e: RegEntry, override_: bool)
    requires
        names_unique(entries),
    ensures
        names_unique(spec_register(entries, e, override_).0),
{
    let (out, r) = spec_register(entries, e, override_);
    if spec_contains(entries, e.name@) {
        if override_ {
            lemma_index_of(entries, e.name@);
            let i = spec_index_of(entries, e.name@);
            assert forall|x: int, y: int| 0 <= x < y < out.len() implies out[x].name@
                != out[y].name@ by {
                assert(out[x] == if x == i {
                    e
                } else {
                    entries[x]
                });
                assert(out[y] == if y == i {
                    e
                } else {
                    entries[y]
                });
            }
        }
    } else {
        lemma_lookup_contains(entries, e.name@);
        assert forall|x: int, y: int| 0 <= x < y < out.len() implies out[x].name@
            != out[y].name@ by {
            if y == entries.len() {
                assert(out[y] == e);
                assert(entries[x].name@ != e.name@);
            }
        }
    }
}

/// The function table of one loaded module: its own handle, the functions it
/// exports, and the modules imported into it.
#[derive(Debug)]
pub struct ModuleRec {
    /// The opaque handle of the module.
    pub handle: u64,
    /// The functions the module exports, by name.
    pub funcs: Vec<RegEntry>,
    /// The handles of the modules imported into this one.
    pub imports: Vec<u64>,
}

/// The mathematical value of a [`ModuleRec`].
pub struct ModuleRecView {
    /// The opaque handle of the module.
    pub handle: u64,
    /// The functions the module exports, by name.
    pub funcs: Seq<RegEntry>,
    /// The handles of the modules imported into this one.
    pub imports: Seq<u64>,
}

impl View for ModuleRec {
    type V = ModuleRecView;

    open spec fn view(&self) -> ModuleRecView {
        ModuleRecView { handle: self.handle, funcs: self.funcs@, imports: self.imports@ }
    }
}

/// The table of the module a handle names, searching front to back.
pub open spec fn spec_find_module(mods: Seq<ModuleRecView>, handle: u64) -> Option<ModuleRecView>
    decreases mods.len(),
{
    if mods.len() == 0 {
        None
    } else if mods.first().handle == handle {
        Some(mods.first())
    } else {
        spec_find_module(mods.drop_first(), handle)
    }
}

/// The handle a name resolves to in the exports of one module.
pub open spec fn spec_mod_own_lookup(mods: Seq<ModuleRecView>, handle: u64, name: Seq<
    char,
>) -> Option<u64> {
    match spec_find_module(mods, handle) {
        Some(m) => spec_lookup(m.funcs, name),
        None => None,
    }
}

/// The handle a name resolves to in the exports of the first importing
/// module that has it, searching the imports front to back.
pub open spec fn spec_import_lookup(
    mods: Seq<ModuleRecView>,
    imports: Seq<u64>,
    name: Seq<char>,
) -> Option<u64>
    decreases imports.len(),
{
    if imports.len() == 0 {
        None
    } else {
        match spec_mod_own_lookup(mods, imports.first(), name) {
            Some(h) => Some(h),
            None => spec_import_lookup(mods, imports.drop_first(), name),
        }
    }
}

/// The handle a name resolves to in a module: its own exports first, then,
/// where imports are queried, the exports of its imports in order.
pub open spec fn spec_mod_lookup(
    mods: Seq<ModuleRecView>,
    handle: u64,
    name: Seq<char>,
    query_imports: bool,
) -> Option<u64> {
    match spec_mod_own_lookup(mods, handle, name) {
        Some(h) => Some(h),
        None => if query_imports {
            match spec_find_module(mods, handle) {
                Some(m) => spec_import_lookup(mods, m.imports, name),
                None => None,
            }
        } else {
            None
        },
    }
}

/// A module handle is found exactly when some table carries it.
pub proof fn lemma_find_module_contains(mods: Seq<ModuleRecView>, handle: u64)
    ensures
        spec_find_module(mods, handle) is Some <==> exists|i: int|
            0 <= i < mods.len() && mods[i].handle == handle,
    decreases mods.len(),
{
    if mods.len() > 0 {
        lemma_find_module_contains(mods.drop_first(), handle);
        if mods.first().handle == handle {
            assert(mods[0].handle == handle);
        } else if exists|i: int| 0 <= i < mods.len() && mods[i].handle == handle {
            let i = choose|i: int| 0 <= i < mods.len() && mods[i].handle == handle;
            assert(mods.drop_first()[i - 1].handle == handle);
        }
    }
}

/// Appending a module table resolves its handle where no table carried it,
/// and leaves every carried handle resolving as before.
pub proof fn lemma_find_module_push(mods: Seq<ModuleRecView>, m: ModuleRecView, handle: u64)
    ensures
        spec_find_module(mods.push(m), handle) == if spec_find_module(mods, handle) is Some {
            spec_find_module(mods, handle)
        } else if m.handle == handle {
            Some(m)
        } else {
            None::<ModuleRecView>
        },
    decreases mods.len(),
{
    if mods.len() == 0 {
        assert(mods.push(m).first() == m);
        assert(mods.push(m).drop_first() =~= Seq::<ModuleRecView>::empty());
    } else {
        assert(mods.push(m).first() == mods.first());
        assert(mods.push(m).drop_first() =~= mods.drop_first().push(m));
        lemma_find_module_push(mods.drop_first(), m, handle);
    }
}

/// Replacing the table at a handle's index rebinds that handle and leaves
/// every other handle resolving as before, where handles are pairwise
/// distinct.
pub proof fn lemma_find_module_update(
    mods: Seq<ModuleRecView>,
    i: int,
    m: ModuleRecView,
    handle: u64,
)
    requires
        0 <= i < mods.len(),
        m.handle == mods[i].handle,
        forall|x: int, y: int| 0 <= x < y < mods.len() ==> mods[x].handle != mods[y].handle,
    ensures
        spec_find_module(mods.update(i, m), handle) == if handle == m.handle {
            Some(m)
        } else {
            spec_find_module(mods, handle)
        },
    decreases i,
{
    if i == 0 {
        assert(mods.update(0, m).first() == m);
        assert(mods.update(0, m).drop_first() =~= mods.drop_first());
    } else {
        assert(mods.update(i, m).first() == mods.first());
        assert(mods.update(i, m).drop_first() =~= mods.drop_first().update(i - 1, m));
        assert(mods.first().handle != mods[i].handle);
        assert forall|x: int, y: int|
            0 <= x < y < mods.drop_first().len() implies mods.drop_first()[x].handle
            != mods.drop_first()[y].handle by {
            assert(mods.drop_first()[x] == mods[x + 1]);
            assert(mods.drop_first()[y] == mods[y + 1]);
        }
        assert(mods.drop_first()[i - 1] == mods[i]);
        lemma_find_module_update(mods.drop_first(), i - 1, m, handle);
    }
}

/// The state the native side keeps process-wide, as one explicit value: the
/// global function registry, the last-error channel, the handle allocator,
/// the module tables, the log of release and conversion requests, and the
/// frontend's lazily-populated snapshot of the registry names.
#[derive(Debug)]
pub struct Runtime {
    /// The global registry: names bound to callee handles.
    pub registry: Vec<RegEntry>,
    /// The tables of the loaded modules.
    pub modules: Vec<ModuleRec>,
    /// The next opaque handle to hand out; `0` is reserved for null.
    pub next_handle: u64,
    /// The process-wide last-error text.
    pub last_error: String,
    /// The handles whose release has been requested, in request order.
    pub freed: Vec<u64>,
    /// The handles run through the argument-to-return conversion, in order.
    pub converted: Vec<u64>,
    /// The frontend's snapshot of the registry names, taken at most once.
    pub names_cache: Option<Vec<String>>,
}

impl Runtime {
    /// The module tables, by value.
    pub open spec fn spec_modules(&self) -> Seq<ModuleRecView> {
        self.modules@.map(|i: int, m: ModuleRec| m@)
    }

    /// Well-formedness: the registry binds each name at most once; module
    /// handles are pairwise distinct and below the allocator mark.
    pub open spec fn wf(&self) -> bool {
        &&& names_unique(self.registry@)
        &&& 1 <= self.next_handle
        &&& forall|i: int|
            0 <= i < self.modules@.len() ==> 1 <= #[trigger] self.modules@[i].handle
                < self.next_handle
        &&& forall|i: int, j: int|
            0 <= i < j < self.modules@.len() ==> self.modules@[i].handle != self.modules@[j].handle
    }

    /// Everything but the named parts is as it was.
    pub open spec fn same_except_registry(&self, other: &Runtime) -> bool {
        &&& self.modules == other.modules
        &&& self.next_handle == other.next_handle
        &&& self.last_error == other.last_error
        &&& self.freed == other.freed
        &&& self.converted == other.converted
        &&& self.names_cache == other.names_cache
    }

    /// Everything but the frontend's name snapshot is as it was.
    pub open spec fn same_except_names_cache(&self, other: &Runtime) -> bool {
        &&& self.registry == other.registry
        &&& self.modules == other.modules
        &&& self.next_handle == other.next_handle
        &&& self.last_error == other.last_error
        &&& self.freed == other.freed
        &&& self.converted == other.converted
    }

    /// Everything a dispatch may not touch is as it was: all but the
    /// conversion log and the error channel.
    pub open spec fn same_except_dispatch(&self, other: &Runtime) -> bool {
        &&& self.registry == other.registry
        &&& self.modules == other.modules
        &&& self.next_handle == other.next_handle
        &&& self.freed == other.freed
        &&& self.names_cache == other.names_cache
    }

    /// A fresh runtime: nothing registered, nothing loaded, no error text,
    /// no releases or conversions requested, the name cache not yet taken.
    pub fn new() -> (rt: Runtime)
        ensures
            rt.wf(),
            rt.registry@.len() == 0,
            rt.modules@.len() == 0,
            rt.next_handle == 1,
            rt.last_error@ == Seq::<char>::empty(),
            rt.freed@.len() == 0,
            rt.converted@.len() == 0,
            rt.names_cache is None,
    {
        Runtime {
            registry: Vec::new(),
            modules: Vec::new(),
            next_handle: 1,
            last_error: String::new(),
            freed: Vec::new(),
            converted: Vec::new(),
            names_cache: None,
        }
    }

    /// Hands out the next opaque handle.
    pub(crate) fn alloc_handle(&mut self) -> (h: u64)
        requires
            old(self).next_handle < u64::MAX,
        ensures
            h == old(self).next_handle,
            final(self).next_handle == old(self).next_handle + 1,
            final(self).registry == old(self).registry,
            final(self).modules == old(self).modules,
            final(self).last_error == old(self).last_error,
            final(self).freed == old(self).freed,
            final(self).converted == old(self).converted,
            final(self).names_cache == old(self).names_cache,
            old(self).wf() ==> final(self).wf(),
    {
        let h = self.next_handle;
        self.next_handle = self.next_handle + 1;
        h
    }

    /// The handle the global registry binds a name to, if any.
    pub fn lookup_global(&self, name: &str) -> (r: Option<u64>)
        ensures
            r == spec_lookup(self.registry@, name@),
    {
        let owned = name.to_owned();
        let mut i: usize = 0;
        proof {
            assert(self.registry@.skip(0) =~= self.registry@);
        }
        while i < self.registry.len()
            invariant
                i <= self.registry.len(),
                owned@ == name@,
                spec_lookup(self.registry@, name@) == spec_lookup(
                    self.registry@.skip(i as int),
                    name@,
                ),
            decreases self.registry.len() - i,
        {
            proof {
                assert(self.registry@.skip(i as int).first() == self.registry@[i as int]);
            }
            if self.registry[i].name == owned {
                proof {
                    assert(spec_lookup(self.registry@.skip(i as int), name@) == Some(
                        self.registry@[i as int].handle,
                    ));
                }
                return Some(self.registry[i].handle);
            }
            proof {
                assert(self.registry@.skip(i as int).drop_first() =~= self.registry@.skip(
                    i as int + 1,
                ));
            }
            i += 1;
        }
        proof {
            assert(self.registry@.skip(self.registry@.len() as int) =~= Seq::<RegEntry>::empty());
        }
        None
    }

    /// Binds a name to a callee handle in the global registry: a collision
    /// without `override` is refused with `DuplicateName`, a collision with
    /// `override` replaces the binding, a fresh name is appended.
    pub fn register_global(&mut self, name: String, handle: u64, override_: bool) -> (r: Result<
        (),
        TVMError,
    >)
        requires
            old(self).wf(),
        ensures
            final(self).wf(),
            final(self).same_except_registry(old(self)),
            (final(self).registry@, r) == spec_register(
                old(self).registry@,
                RegEntry { name, handle },
                override_,
            ),
    {
        let entry_name = name.clone();
        let ghost entry = RegEntry { name, handle };
        proof {
            lemma_register_preserves_unique(self.registry@, entry, override_);
        }
        let mut i: usize = 0;
        proof {
            assert(self.registry@.skip(0) =~= self.registry@);
        }
        while i < self.registry.len()
            invariant
                old(self).wf(),
                *self == *old(self),
                i <= self.registry.len(),
                entry_name == name,
                entry == (RegEntry { name: entry_name, handle }),
                spec_lookup(self.registry@, entry.name@) == spec_lookup(
                    self.registry@.skip(i as int),
                    entry.name@,
                ),
                forall|j: int| 0 <= j < i ==> self.registry@[j].name@ != entry.name@,
            decreases self.registry.len() - i,
        {
            proof {
                assert(self.registry@.skip(i as int).first() == self.registry@[i as int]);
            }
            if self.registry[i].name == entry_name {
                proof {
                    assert(spec_lookup(self.registry@.skip(i as int), entry.name@) == Some(
                        self.registry@[i as int].handle,
                    ));
                    lemma_index_of(self.registry@, entry.name@);
                    assert(spec_index_of(self.registry@, entry.name@) == i as int) by {
                        let k = spec_index_of(self.registry@, entry.name@);
                        if k < i as int {
                            assert(self.registry@[k].name@ != entry.name@);
                        }
                        if k > i as int {
                            assert(self.registry@[i as int].name@ != entry.name@);
                        }
                    }
                }
                if override_ {
                    proof {
                        assert((RegEntry { name: entry_name, handle }) == entry);
                    }
                    self.registry.set(i, RegEntry { name: entry_name, handle });
                    proof {
                        assert(self.registry@ == old(self).registry@.update(
                            spec_index_of(old(self).registry@, entry.name@),
                            entry,
                        ));
                    }
                    return Ok(());
                } else {
                    return Err(TVMError::DuplicateName { name: entry_name });
                }
            }
            proof {
                assert(self.registry@.skip(i as int).drop_first() =~= self.registry@.skip(
                    i as int + 1,
                ));
            }
            i += 1;
        }
        proof {
            assert(self.registry@.skip(self.registry@.len() as int) =~= Seq::<RegEntry>::empty());
            assert(!spec_contains(self.registry@, entry.name@));
        }
        self.registry.push(RegEntry { name: entry_name, handle });
        Ok(())
    }

    /// Reads the process-wide last-error text.
    pub fn get_last(&self) -> (msg: String)
        ensures
            msg == self.last_error,
    {
        self.last_error.clone()
    }

    /// Writes the process-wide last-error text.
    pub fn set_last(&mut self, msg: String)
        ensures
            *final(self) == (Runtime { last_error: msg, ..*old(self) }),
    {
        self.last_error = msg;
    }

    /// Requests the release of a handle; the request is logged, never
    /// repeated by this layer for the same owning instance.
    pub fn free_handle(&mut self, handle: u64)
        ensures
            final(self).freed@ == old(self).freed@.push(handle),
            *final(self) == (Runtime { freed: final(self).freed, ..*old(self) }),
    {
        self.freed.push(handle);
    }

    /// Requests the argument-to-return conversion of a callback argument's
    /// handle; the request is logged.
    pub fn cb_arg_to_return(&mut self, handle: u64)
        ensures
            final(self).converted@ == old(self).converted@.push(handle),
            *final(self) == (Runtime { converted: final(self).converted, ..*old(self) }),
    {
        self.converted.push(handle);
    }

    /// The registry names the frontend's snapshot would hold, were it taken
    /// now.
    pub open spec fn spec_registry_names(&self) -> Seq<String> {
        self.registry@.map(|i: int, e: RegEntry| e.name)
    }

    /// The frontend's snapshot of the registry names, taken on first use and
    /// never refreshed: a stale-tolerant cache, not a source of truth.
    pub fn global_function_names(&mut self) -> (names: &Vec<String>)
        ensures
            *final(self) == (Runtime { names_cache: final(self).names_cache, ..*old(self) }),
            final(self).names_cache == Some(*names),
            old(self).names_cache is Some ==> final(self).names_cache == old(self).names_cache,
            old(self).names_cache is None ==> names@ == old(self).spec_registry_names(),
    {
        if self.names_cache.is_none() {
            let mut snapshot: Vec<String> = Vec::new();
            let mut i: usize = 0;
            while i < self.registry.len()
                invariant
                    i <= self.registry.len(),
                    snapshot@ =~= self.registry@.map(|k: int, e: RegEntry| e.name).take(i as int),
                decreases self.registry.len() - i,
            {
                snapshot.push(self.registry[i].name.clone());
                i += 1;
            }
            proof {
                assert(snapshot@ =~= self.spec_registry_names());
            }
            self.names_cache = Some(snapshot);
        }
        match &self.names_cache {
            Some(names) => names,
            None => unreached(),
        }
    }

    /// The index of the module a handle names, if any: the handle at that
    /// index matches, and no earlier one does.
    fn find_module_index(&self, handle: u64) -> (r: Option<usize>)
        ensures
            match r {
                Some(i) => i < self.modules@.len() && self.spec_modules()[i as int].handle == handle
                    && spec_find_module(self.spec_modules(), handle) == Some(
                    self.spec_modules()[i as int],
                ),
                None => spec_find_module(self.spec_modules(), handle) is None,
            },
    {
        let ghost mods = self.spec_modules();
        let mut i: usize = 0;
        proof {
            assert(mods.skip(0) =~= mods);
        }
        while i < self.modules.len()
            invariant
                mods == self.spec_modules(),
                i <= self.modules@.len(),
                spec_find_module(mods, handle) == spec_find_module(mods.skip(i as int), handle),
            decreases self.modules@.len() - i,
        {
            proof {
                assert(mods.skip(i as int).first() == mods[i as int]);
            }
            if self.modules[i].handle == handle {
                return Some(i);
            }
            proof {
                assert(mods.skip(i as int).drop_first() =~= mods.skip(i as int + 1));
            }
            i += 1;
        }
        proof {
            assert(mods.skip(mods.len() as int) =~= Seq::<ModuleRecView>::empty());
        }
        None
    }

    /// The handle a name resolves to in the own exports of the module a
    /// handle names, as a value: `0` where the module or the name is absent.
    fn mod_own_lookup(&self, handle: u64, owned: &String) -> (r: Option<u64>)
        ensures
            r == spec_mod_own_lookup(self.spec_modules(), handle, owned@),
    {
        match self.find_module_index(handle) {
            Some(i) => lookup_entries(&self.modules[i].funcs, owned),
            None => None,
        }
    }

    /// Resolves a name in a module: its own exports first, then — where
    /// imports are queried — the exports of its imports in order. Returns
    /// the null handle `0` where nothing resolves.
    pub fn mod_get_function(&self, mod_handle: u64, name: &str, query_imports: bool) -> (r: u64)
        ensures
            r == (match spec_mod_lookup(self.spec_modules(), mod_handle, name@, query_imports) {
                Some(h) => h,
                None => 0,
            }),
    {
        let owned = name.to_owned();
        match self.mod_own_lookup(mod_handle, &owned) {
            Some(h) => h,
            None => {
                if query_imports {
                    match self.find_module_index(mod_handle) {
                        Some(i) => {
                            let imports = &self.modules[i].imports;
                            let ghost mods = self.spec_modules();
                            let mut j: usize = 0;
                            proof {
                                assert(imports@.skip(0) =~= imports@);
                            }
                            while j < imports.len()
                                invariant
                                    mods == self.spec_modules(),
                                    imports == &self.modules@[i as int].imports,
                                    i < self.modules@.len(),
                                    spec_find_module(mods, mod_handle) == Some(mods[i as int]),
                                    mods[i as int].imports == imports@,
                                    spec_mod_own_lookup(mods, mod_handle, name@) is None,
                                    query_imports,
                                    j <= imports@.len(),
                                    spec_import_lookup(mods, imports@, name@)
                                        == spec_import_lookup(
                                        mods,
                                        imports@.skip(j as int),
                                        name@,
                                    ),
                                    owned@ == name@,
                                decreases imports@.len() - j,
                            {
                                proof {
                                    assert(imports@.skip(j as int).first()
                                        == imports@[j as int]);
                                }
                                match self.mod_own_lookup(imports[j], &owned) {
                                    Some(h) => {
                                        proof {
                                            assert(spec_import_lookup(
                                                mods,
                                                imports@.skip(j as int),
                                                name@,
                                            ) == Some(h));
                                            assert(spec_mod_lookup(
                                                mods,
                                                mod_handle,
                                                name@,
                                                query_imports,
                                            ) == Some(h));
                                        }
                                        return h;
                                    },
                                    None => {},
                                }
                                proof {
                                    assert(imports@.skip(j as int).drop_first() =~= imports@.skip(
                                        j as int + 1,
                                    ));
                                }
                                j += 1;
                            }
                            proof {
                                assert(imports@.skip(imports@.len() as int) =~= Seq::<
                                    u64,
                                >::empty());
                            }
                            0
                        },
                        None => 0,
                    }
                } else {
                    0
                }
            },
        }
    }

    /// Records that the native side has loaded a module exporting the given
    /// function names: allocates the module's handle, then one handle per
    /// exported function in name order, and appends the new table. Stands
    /// for the native side of module loading, which is out of scope here.
    pub fn install_module(&mut self, names: &Vec<String>) -> (h: u64)
        requires
            old(self).wf(),
            old(self).next_handle + names@.len() < u64::MAX,
        ensures
            final(self).wf(),
            h == old(self).next_handle,
            final(self).next_handle == old(self).next_handle + 1 + names@.len(),
            final(self).registry == old(self).registry,
            final(self).last_error == old(self).last_error,
            final(self).freed == old(self).freed,
            final(self).converted == old(self).converted,
            final(self).names_cache == old(self).names_cache,
            final(self).spec_modules().len() == old(self).spec_modules().len() + 1,
            ({
                let m = final(self).spec_modules().last();
                &&& m.handle == h
                &&& m.imports.len() == 0
                &&& m.funcs.len() == names@.len()
                &&& forall|i: int|
                    0 <= i < names@.len() ==> m.funcs[i] == (RegEntry {
                        name: names@[i],
                        handle: (h + 1 + i) as u64,
                    })
                &&& spec_find_module(final(self).spec_modules(), h) == Some(m)
            }),
            forall|h2: u64|
                h2 != h ==> spec_find_module(final(self).spec_modules(), h2) == spec_find_module(
                    old(self).spec_modules(),
                    h2,
                ),
    {
        let h = self.alloc_handle();
        let mut funcs: Vec<RegEntry> = Vec::new();
        let mut i: usize = 0;
        while i < names.len()
            invariant
                old(self).wf(),
                i <= names@.len(),
                h == old(self).next_handle,
                old(self).next_handle + names@.len() < u64::MAX,
                self.next_handle == h + 1 + i,
                self.registry == old(self).registry,
                self.modules == old(self).modules,
                self.last_error == old(self).last_error,
                self.freed == old(self).freed,
                self.converted == old(self).converted,
                self.names_cache == old(self).names_cache,
                funcs@.len() == i,
                forall|k: int|
                    0 <= k < i ==> #[trigger] funcs@[k] == (RegEntry {
                        name: names@[k],
                        handle: (h + 1 + k) as u64,
                    }),
            decreases names@.len() - i,
        {
            let fh = self.alloc_handle();
            funcs.push(RegEntry { name: names[i].clone(), handle: fh });
            i += 1;
        }
        let rec = ModuleRec { handle: h, funcs, imports: Vec::new() };
        let ghost rec_view = rec@;
        proof {
            lemma_find_module_contains(old(self).spec_modules(), h);
        }
        self.modules.push(rec);
        proof {
            assert(self.spec_modules() =~= old(self).spec_modules().push(rec_view));
            assert(self.spec_modules().last() == rec_view);
            lemma_find_module_push(old(self).spec_modules(), rec_view, h);
            assert forall|h2: u64| h2 != h implies spec_find_module(self.spec_modules(), h2)
                == spec_find_module(old(self).spec_modules(), h2) by {
                lemma_find_module_push(old(self).spec_modules(), rec_view, h2);
                lemma_find_module_contains(old(self).spec_modules(), h2);
            }
            assert forall|x: int, y: int|
                0 <= x < y < self.modules@.len() implies self.modules@[x].handle
                != self.modules@[y].handle by {
                if y == self.modules@.len() - 1 {
                    assert(self.modules@[x] == old(self).modules@[x]);
                }
            }
        }
        h
    }

    /// Imports one module into another: the importer's table gains the
    /// imported handle at the end of its import list. Fails where the
    /// importer is unknown.
    pub fn mod_import(&mut self, importer: u64, imported: u64) -> (ok: bool)
        requires
            old(self).wf(),
        ensures
            final(self).wf(),
            final(self).registry == old(self).registry,
            final(self).next_handle == old(self).next_handle,
            final(self).last_error == old(self).last_error,
            final(self).freed == old(self).freed,
            final(self).converted == old(self).converted,
            final(self).names_cache == old(self).names_cache,
            match spec_find_module(old(self).spec_modules(), importer) {
                Some(m) => ok && spec_find_module(final(self).spec_modules(), importer) == Some(
                    ModuleRecView {
                        handle: m.handle,
                        funcs: m.funcs,
                        imports: m.imports.push(imported),
                    },
                ) && (forall|h2: u64|
                    h2 != importer ==> spec_find_module(final(self).spec_modules(), h2)
                        == spec_find_module(old(self).spec_modules(), h2)),
                None => !ok && *final(self) == *old(self),
            },
    {
        match self.find_module_index(importer) {
            Some(i) => {
                let ghost old_mods = self.spec_modules();
                let mut rec = self.modules.remove(i);
                rec.imports.push(imported);
                let ghost rec_view = rec@;
                self.modules.insert(i, rec);
                proof {
                    assert(self.modules@ =~= old(self).modules@.update(i as int, rec));
                    assert(self.spec_modules() =~= old_mods.update(i as int, rec_view));
                    assert(rec_view == (ModuleRecView {
                        handle: old_mods[i as int].handle,
                        funcs: old_mods[i as int].funcs,
                        imports: old_mods[i as int].imports.push(imported),
                    }));
                    assert(spec_find_module(old_mods, importer) == Some(old_mods[i as int]));
                    lemma_find_module_update(old_mods, i as int, rec_view, importer);
                    assert forall|h2: u64| h2 != importer implies spec_find_module(
                        self.spec_modules(),
                        h2,
                    ) == spec_find_module(old_mods, h2) by {
                        lemma_find_module_update(old_mods, i as int, rec_view, h2);
                    }
                    assert forall|x: int, y: int|
                        0 <= x < y < self.modules@.len() implies self.modules@[x].handle
                        != self.modules@[y].handle by {
                        assert(self.spec_modules()[x].handle == old_mods[x].handle);
                        assert(self.spec_modules()[y].handle == old_mods[y].handle);
                    }
                }
                true
            },
            None => false,
        }
    }
}

/// The handle a name resolves to in a table held as a vector, searching
/// front to back.
fn lookup_entries(entries: &Vec<RegEntry>, owned: &String) -> (r: Option<u64>)
    ensures
        r == spec_lookup(entries@, owned@),
{
    let mut i: usize = 0;
    proof {
        assert(entries@.skip(0) =~= entries@);
    }
    while i < entries.len()
        invariant
            i <= entries@.len(),
            spec_lookup(entries@, owned@) == spec_lookup(entries@.skip(i as int), owned@),
        decreases entries@.len() - i,
    {
        proof {
            assert(entries@.skip(i as int).first() == entries@[i as int]);
        }
        if entries[i].name == *owned {
            proof {
                assert(spec_lookup(entries@.skip(i as int), owned@) == Some(
                    entries@[i as int].handle,
                ));
            }
            return Some(entries[i].handle);
        }
        proof {
            assert(entries@.skip(i as int).drop_first() =~= entries@.skip(i as int + 1));
        }
        i += 1;
    }
    proof {
        assert(entries@.skip(entries@.len() as int) =~= Seq::<RegEntry>::empty());
    }
    None
}

} // verus!
