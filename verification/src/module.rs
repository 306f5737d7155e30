//! Handles to loaded units of native code: each resolves named functions
//! from its own export table and, on request, from the tables of the modules
//! imported into it; the entry point is resolved once and kept.

use vstd::prelude::*;

use vstd::pervasive::unreached;

use crate::function::Function;
use crate::runtime::{nul_free, spec_find_module, spec_mod_lookup, spec_resolves, Runtime};
use crate::ty::TypeTag;
use crate::function::{get_global_func, Builder};
use crate::value::{PayloadView, TVMArgValue, TVMRetValue, TVMValueView, TaggedView, ValueKind};
use crate::TVMError;

verus! {

/// The conventional name of the default callable a module exports.
pub const ENTRY_FUNC: &'static str = "__tvm_main__";

/// An opaque reference to a loaded unit of native code, with its release
/// state and its lazily resolved entry function.
#[derive(Debug)]
pub struct Module {
    pub(crate) handle: u64,
    is_released: bool,
    pub(crate) entry: Option<Function>,
}

impl Module {
    /// The opaque native reference this handle wraps.
    pub closed spec fn spec_handle(&self) -> u64 {
        self.handle
    }

    /// Whether this instance's release has already happened.
    pub closed spec fn spec_released(&self) -> bool {
        self.is_released
    }

    /// The cached entry function, if resolved.
    pub closed spec fn spec_entry(&self) -> Option<Function> {
        self.entry
    }

    /// Whether dropping this instance owes the native side a release.
    pub open spec fn spec_releases_on_drop(&self) -> bool {
        !self.spec_released()
    }

    /// Wraps a native module reference.
    pub(crate) fn new(handle: u64, is_released: bool, entry: Option<Function>) -> (m: Module)
        ensures
            m.spec_handle() == handle,
            m.spec_released() == is_released,
            m.spec_entry() == entry,
    {
        Module { handle, is_released, entry }
    }

    /// Resolves a named function from this module's exports; with
    /// `query_import`, the exports of its imported modules are searched in
    /// order after its own. A name that resolves to nothing — or to the null
    /// reference — fails with `NullHandle`. The resulting handle is owning.
    /// The name crosses the boundary as a C string, so it must carry no
    /// interior NUL.
    pub fn get_function(&self, name: &str, query_import: bool, rt: &Runtime) -> (r: Result<
        Function,
        TVMError,
    >)
        requires
            nul_free(name@),
        ensures
            match spec_mod_lookup(rt.spec_modules(), self.spec_handle(), name@, query_import) {
                Some(h) => if h != 0 {
                    r matches Ok(f) && f.spec_handle() == h && !f.spec_global()
                        && !f.spec_released() && !f.spec_cloned()
                } else {
                    r matches Err(e) && e matches TVMError::NullHandle { name: n } && n@ == name@
                },
                None => r matches Err(e) && e matches TVMError::NullHandle { name: n } && n@
                    == name@,
            },
    {
        let fhandle = rt.mod_get_function(self.handle, name, query_import);
        if fhandle == 0 {
            Err(TVMError::NullHandle { name: name.to_owned() })
        } else {
            Ok(Function::new(fhandle, false, false))
        }
    }

    /// Resolves and caches the entry function, once: an entry already
    /// resolved is kept; an entry that does not resolve leaves the cache
    /// empty.
    pub fn entry_func(self, rt: &Runtime) -> (m: Module)
        ensures
            m.spec_handle() == self.spec_handle(),
            m.spec_released() == self.spec_released(),
            self.spec_entry() is Some ==> m.spec_entry() == self.spec_entry(),
            self.spec_entry() is None ==> match spec_mod_lookup(
                rt.spec_modules(),
                self.spec_handle(),
                ENTRY_FUNC@,
                false,
            ) {
                Some(h) => if h != 0 {
                    m.spec_entry() matches Some(f) && f.spec_handle() == h && !f.spec_global()
                        && !f.spec_released() && !f.spec_cloned()
                } else {
                    m.spec_entry() is None
                },
                None => m.spec_entry() is None,
            },
    {
        let mut m = self;
        proof {
            reveal_strlit("__tvm_main__");
            assert(nul_free(ENTRY_FUNC@));
        }
        if m.entry.is_none() {
            m.entry = match m.get_function(ENTRY_FUNC, false, rt) {
                Ok(f) => Some(f),
                Err(_) => None,
            };
        }
        m
    }

    /// Imports a dependent module into this one: the native side records the
    /// dependency, and the dependent handle — now referenced by the importer
    /// — is dropped here, issuing the release its ownership state owes.
    pub fn import_module(&self, dependent_module: Module, rt: &mut Runtime)
        requires
            old(rt).wf(),
            spec_find_module(old(rt).spec_modules(), self.spec_handle()) is Some,
        ensures
            final(rt).wf(),
            final(rt).registry == old(rt).registry,
            final(rt).next_handle == old(rt).next_handle,
            final(rt).last_error == old(rt).last_error,
            final(rt).converted == old(rt).converted,
            final(rt).names_cache == old(rt).names_cache,
            dependent_module.spec_releases_on_drop() ==> final(rt).freed@ == old(rt).freed@.push(
                dependent_module.spec_handle(),
            ),
            !dependent_module.spec_releases_on_drop() ==> final(rt).freed@ == old(rt).freed@,
            match spec_find_module(old(rt).spec_modules(), self.spec_handle()) {
                Some(m) => spec_find_module(final(rt).spec_modules(), self.spec_handle()) == Some(
                    crate::runtime::ModuleRecView {
                        handle: m.handle,
                        funcs: m.funcs,
                        imports: m.imports.push(dependent_module.spec_handle()),
                    },
                ) && (forall|h2: u64|
                    h2 != self.spec_handle() ==> spec_find_module(final(rt).spec_modules(), h2)
                        == spec_find_module(old(rt).spec_modules(), h2)),
                None => false,
            },
    {
        let mut dependent = dependent_module;
        if !rt.mod_import(self.handle, dependent.handle) {
            unreached::<()>();
        }
        dependent.release(rt);
    }

    /// Loads a unit of native code from a file: the loader packed function
    /// is resolved from the global registry by its conventional name and
    /// invoked with the path and the path's extension; its return value must
    /// be an owned module handle. `loader` supplies the native loader's
    /// code, which is bound type-erased behind the resolved handle.
    pub fn load<F: Fn(Vec<TVMArgValue>) -> Result<TVMRetValue, TVMError>>(
        path: &str,
        rt: &mut Runtime,
        loader: F,
    ) -> (r: Result<Module, TVMError>)
        requires
            forall|v: Vec<TVMArgValue>|
                v@.map(|i: int, a: TVMArgValue| a@) == spec_load_args(path@) ==> call_requires(
                    loader,
                    (v,),
                ),
        ensures
            final(rt).same_except_dispatch(old(rt)),
            match spec_resolves(old(rt).registry@, "module._LoadFromFile"@) {
                None => r matches Err(e) && e == TVMError::FunctionNotFound && *final(rt) == *old(
                    rt,
                ),
                Some(_) => exists|v: Vec<TVMArgValue>, r0: Result<TVMRetValue, TVMError>|
                    {
                        &&& v@.map(|i: int, a: TVMArgValue| a@) == spec_load_args(path@)
                        &&& #[trigger] call_ensures(loader, (v,), r0)
                        &&& match r0 {
                            Ok(rv) => if rv.wf() {
                                if rv@.type_code == TypeTag::ModuleHandle && (rv@.value.inner
                                    matches PayloadView::Handle(h) && h != 0) {
                                    r matches Ok(m) && Some(m.spec_handle())
                                        == (match rv@.value.inner {
                                        PayloadView::Handle(h) => Some(h),
                                        _ => None,
                                    }) && !m.spec_released() && m.spec_entry() is None
                                } else {
                                    r is Err
                                }
                            } else {
                                r matches Err(e) && e matches TVMError::NativeCallFailed {
                                    message,
                                }
                            },
                            Err(e0) => r matches Err(e) && (e matches TVMError::NativeCallFailed {
                                message,
                            } && message@ == e0.spec_message()),
                        }
                    },
            },
    {
        proof {
            reveal_strlit("module._LoadFromFile");
            assert(nul_free("module._LoadFromFile"@));
        }
        let func = match get_global_func("module._LoadFromFile", true, rt) {
            Some(f) => f,
            None => {
                return Err(TVMError::FunctionNotFound);
            },
        };
        let path_str = path.to_owned();
        let ext = path_extension(path).to_owned();
        let mut builder = Builder::from(func);
        builder.arg(&path_str);
        builder.arg(&ext);
        proof {
            assert(builder.wf());
            assert(builder.spec_arg_views().len() == 2);
            assert(builder.spec_arg_views()[0] == crate::value::spec_arg_of(path_str));
            assert(builder.spec_arg_views()[1] == crate::value::spec_arg_of(ext));
            assert(builder.spec_callback_views() =~= spec_load_args(path@));
        }
        let ret = match builder.invoke(rt, loader) {
            Ok(rv) => rv,
            Err(e) => {
                return Err(e);
            },
        };
        ret.to_module()
    }

    /// Asks the native side whether a target is enabled: the capability
    /// query packed function is resolved by its conventional name and
    /// invoked with the target name; a non-zero integer answer means
    /// enabled. `query` supplies the native query's code, bound type-erased
    /// behind the resolved handle.
    pub fn enabled<F: Fn(Vec<TVMArgValue>) -> Result<TVMRetValue, TVMError>>(
        &self,
        target: &str,
        rt: &mut Runtime,
        query: F,
    ) -> (r: Result<bool, TVMError>)
        requires
            forall|v: Vec<TVMArgValue>|
                v@.map(|i: int, a: TVMArgValue| a@) == spec_enabled_args(target@)
                    ==> call_requires(query, (v,)),
        ensures
            final(rt).same_except_dispatch(old(rt)),
            match spec_resolves(old(rt).registry@, "module._Enabled"@) {
                None => r matches Err(e) && e == TVMError::FunctionNotFound && *final(rt) == *old(
                    rt,
                ),
                Some(_) => exists|v: Vec<TVMArgValue>, r0: Result<TVMRetValue, TVMError>|
                    {
                        &&& v@.map(|i: int, a: TVMArgValue| a@) == spec_enabled_args(target@)
                        &&& #[trigger] call_ensures(query, (v,), r0)
                        &&& match r0 {
                            Ok(rv) => if rv.wf() {
                                if rv@.type_code == TypeTag::Int {
                                    r matches Ok(b) && Some(b) == (match rv@.value.inner {
                                        PayloadView::Int(n) => Some(n != 0),
                                        _ => None,
                                    })
                                } else {
                                    r is Err
                                }
                            } else {
                                r is Err
                            },
                            Err(e0) => r matches Err(e) && (e matches TVMError::NativeCallFailed {
                                message,
                            } && message@ == e0.spec_message()),
                        }
                    },
            },
    {
        proof {
            reveal_strlit("module._Enabled");
            assert(nul_free("module._Enabled"@));
        }
        let func = match get_global_func("module._Enabled", true, rt) {
            Some(f) => f,
            None => {
                return Err(TVMError::FunctionNotFound);
            },
        };
        let target_str = target.to_owned();
        let mut builder = Builder::from(func);
        builder.arg(&target_str);
        proof {
            assert(builder.wf());
            assert(builder.spec_arg_views().len() == 1);
            assert(builder.spec_arg_views()[0] == crate::value::spec_arg_of(target_str));
            assert(builder.spec_callback_views() =~= spec_enabled_args(target@));
        }
        let ret = match builder.invoke(rt, query) {
            Ok(rv) => rv,
            Err(e) => {
                return Err(e);
            },
        };
        match ret.to_int() {
            Ok(n) => Ok(n != 0),
            Err(e) => Err(e),
        }
    }

    /// Returns the underlying native module reference.
    pub fn as_handle(&self) -> (h: u64)
        ensures
            h == self.spec_handle(),
    {
        self.handle
    }

    /// Returns whether this instance has been released.
    pub fn is_released(&self) -> (b: bool)
        ensures
            b == self.spec_released(),
    {
        self.is_released
    }

    /// Issues the one release this instance owes, if any, and marks it
    /// released. Idempotent: a second call is a no-op.
    pub fn release(&mut self, rt: &mut Runtime)
        ensures
            final(self).spec_handle() == old(self).spec_handle(),
            final(self).spec_entry() == old(self).spec_entry(),
            final(self).spec_released(),
            old(self).spec_releases_on_drop() ==> final(rt).freed@ == old(rt).freed@.push(
                old(self).spec_handle(),
            ),
            !old(self).spec_releases_on_drop() ==> *final(self) == *old(self) && final(rt).freed@
                == old(rt).freed@,
            *final(rt) == (Runtime { freed: final(rt).freed, ..*old(rt) }),
    {
        if !self.is_released {
            rt.free_handle(self.handle);
            self.is_released = true;
        }
    }
}

/// The index of the last `.` in a path, if any.
pub open spec fn spec_last_dot(s: Seq<char>) -> Option<int>
    decreases s.len(),
{
    if s.len() == 0 {
        None
    } else if s.last() == '.' {
        Some(s.len() - 1)
    } else {
        spec_last_dot(s.drop_last())
    }
}

/// The extension of a path: what follows its last `.`, empty where there is
/// none.
pub open spec fn spec_extension(s: Seq<char>) -> Seq<char> {
    match spec_last_dot(s) {
        Some(i) => s.subrange(i + 1, s.len() as int),
        None => Seq::empty(),
    }
}

/// Extracts the extension of a path.
fn path_extension(path: &str) -> (ext: &str)
    ensures
        ext@ == spec_extension(path@),
{
    let n = path.unicode_len();
    let mut i: usize = n;
    proof {
        assert(path@.take(n as int) =~= path@);
    }
    while i > 0
        invariant
            i <= n,
            n == path@.len(),
            spec_last_dot(path@) == spec_last_dot(path@.take(i as int)),
        decreases i,
    {
        proof {
            assert(path@.take(i as int).last() == path@[i - 1]);
            assert(path@.take(i as int).drop_last() =~= path@.take(i - 1));
        }
        if path.get_char(i - 1) == '.' {
            return path.substring_char(i, n);
        }
        i -= 1;
    }
    proof {
        assert(path@.take(0) =~= Seq::<char>::empty());
        reveal_strlit("");
        assert(""@ =~= Seq::<char>::empty());
    }
    ""
}

/// The argument views the native loader's trampoline receives: the path and
/// its extension, as strings.
pub open spec fn spec_load_args(path: Seq<char>) -> Seq<TaggedView> {
    seq![
        TaggedView {
            value: TVMValueView { kind: ValueKind::Handle, inner: PayloadView::Text(path) },
            type_code: TypeTag::Str,
        },
        TaggedView {
            value: TVMValueView {
                kind: ValueKind::Handle,
                inner: PayloadView::Text(spec_extension(path)),
            },
            type_code: TypeTag::Str,
        },
    ]
}

/// The argument views the native capability query's trampoline receives: the
/// target name, as a string.
pub open spec fn spec_enabled_args(target: Seq<char>) -> Seq<TaggedView> {
    seq![
        TaggedView {
            value: TVMValueView { kind: ValueKind::Handle, inner: PayloadView::Text(target) },
            type_code: TypeTag::Str,
        },
    ]
}

impl crate::function::Builder {
    /// Starts a builder from a module's entry function, taking the cached
    /// entry out of the module.
    pub fn from_module(module: &mut Module) -> (b: crate::function::Builder)
        ensures
            b.func == old(module).spec_entry(),
            b.arg_buf is None,
            b.ret_buf is None,
            final(module).spec_entry() is None,
            final(module).spec_handle() == old(module).spec_handle(),
            final(module).spec_released() == old(module).spec_released(),
    {
        crate::function::Builder::new(module.entry.take(), None, None)
    }
}

impl TVMRetValue {
    /// Converts an owned return value into an owned module handle: the tag
    /// must be `ModuleHandle` — anything else fails with `TypeMismatch` —
    /// and the reference must not be null.
    pub fn to_module(self) -> (r: Result<Module, TVMError>)
        ensures
            match r {
                Ok(m) => self@.type_code == TypeTag::ModuleHandle && (self@.value.inner
                    matches PayloadView::Handle(h) && h != 0 && m.spec_handle() == h
                    && !m.spec_released() && m.spec_entry() is None),
                Err(e) => match e {
                    TVMError::TypeMismatch { expected, actual } => (self@.type_code
                        != TypeTag::ModuleHandle || !(self@.value.inner is Handle)) && expected
                        == TypeTag::ModuleHandle && actual == self@.type_code,
                    TVMError::NullHandle { name } => self@.type_code == TypeTag::ModuleHandle && (
                    self@.value.inner matches PayloadView::Handle(h) ==> h == 0),
                    _ => false,
                },
            },
    {
        if !matches!(self.type_code, TypeTag::ModuleHandle) {
            return Err(
                TVMError::TypeMismatch { expected: TypeTag::ModuleHandle, actual: self.type_code },
            );
        }
        match &self.value.inner {
            crate::value::Payload::Handle(h) => {
                if *h == 0 {
                    Err(TVMError::NullHandle { name: String::from_str("module") })
                } else {
                    Ok(Module::new(*h, false, None))
                }
            },
            _ => Err(
                TVMError::TypeMismatch { expected: TypeTag::ModuleHandle, actual: self.type_code },
            ),
        }
    }
}

} // verus!
