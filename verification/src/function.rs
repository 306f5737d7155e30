//! Packed-function handles, the invocation builder, and the callback
//! trampoline.
//!
//! Calling out: a [`Builder`] accumulates tagged arguments and at most one
//! output slot, serializes them into parallel payload and tag buffers, and
//! performs one native call. Calling in: the trampoline reconstructs tagged
//! argument values from the raw buffers the native caller hands over,
//! dispatches the host callee, and translates its result back into the wire
//! format, including error propagation through the last-error channel.
//!
//! The code bound to a callee's handle is type-erased on the native side (a
//! function pointer plus a context pointer), so it cannot be stored or
//! inspected here: each dispatch site takes the host callee as a closure
//! argument beside the runtime state.

use vstd::prelude::*;

use vstd::pervasive::unreached;

use crate::runtime::{nul_free, spec_lookup, spec_register, spec_resolves, RegEntry, Runtime};
use crate::ty::TypeTag;
use crate::value::{
    spec_arg_of, spec_ret_of, tag_matches, Payload, PayloadView, TVMArgValue, TVMRetValue,
    TVMTypable, TVMValue, TVMValueView, TaggedView, ValueKind,
};
use crate::TVMError;

verus! {

/// A handle to a native callable, with explicit ownership state: `global`
/// handles belong to the native registry and are never released from here;
/// `released` marks that the one release this instance owed has happened;
/// `cloned` marks a non-owning duplicate.
#[derive(Debug)]
pub struct Function {
    handle: u64,
    is_global: bool,
    is_released: bool,
    is_cloned: bool,
}

impl Function {
    /// The opaque native reference this handle wraps.
    pub closed spec fn spec_handle(&self) -> u64 {
        self.handle
    }

    /// Whether the handle was resolved from the global registry.
    pub closed spec fn spec_global(&self) -> bool {
        self.is_global
    }

    /// Whether this instance's release has already happened.
    pub closed spec fn spec_released(&self) -> bool {
        self.is_released
    }

    /// Whether this instance is a non-owning duplicate.
    pub closed spec fn spec_cloned(&self) -> bool {
        self.is_cloned
    }

    /// Whether dropping this instance owes the native side a release: only
    /// an owning instance that has not yet been released does; global,
    /// already-released and cloned instances never do.
    pub open spec fn spec_releases_on_drop(&self) -> bool {
        !self.spec_released() && !self.spec_global() && !self.spec_cloned()
    }

    /// How many releases dropping this instance issues: one or none.
    pub open spec fn spec_release_count(&self) -> int {
        if self.spec_releases_on_drop() {
            1
        } else {
            0
        }
    }

    /// Wraps a native reference.
    pub(crate) fn new(handle: u64, is_global: bool, is_released: bool) -> (f: Function)
        ensures
            f.spec_handle() == handle,
            f.spec_global() == is_global,
            f.spec_released() == is_released,
            !f.spec_cloned(),
    {
        Function { handle, is_global, is_released, is_cloned: false }
    }

    /// Returns the underlying native reference.
    pub fn handle(&self) -> (h: u64)
        ensures
            h == self.spec_handle(),
    {
        self.handle
    }

    /// Returns whether the underlying callable is global.
    pub fn is_global(&self) -> (b: bool)
        ensures
            b == self.spec_global(),
    {
        self.is_global
    }

    /// Returns whether this instance has been released.
    pub fn is_released(&self) -> (b: bool)
        ensures
            b == self.spec_released(),
    {
        self.is_released
    }

    /// Returns whether this instance is a non-owning duplicate.
    pub fn is_cloned(&self) -> (b: bool)
        ensures
            b == self.spec_cloned(),
    {
        self.is_cloned
    }

    /// The instance a clone produces: a duplicate of the same native
    /// reference, marked non-owning, carrying the source's released state. A
    /// duplicate never owes the native side a release; that stays with the
    /// owning instance.
    pub closed spec fn spec_clone(&self) -> Function {
        Function {
            handle: self.handle,
            is_global: self.is_global,
            is_released: self.is_released,
            is_cloned: true,
        }
    }

    /// Issues the one release this instance owes, if any, and marks it
    /// released; global, cloned and already-released instances release
    /// nothing. Idempotent: a second call is a no-op.
    pub fn release(&mut self, rt: &mut Runtime)
        ensures
            final(self).spec_handle() == old(self).spec_handle(),
            final(self).spec_global() == old(self).spec_global(),
            final(self).spec_cloned() == old(self).spec_cloned(),
            old(self).spec_releases_on_drop() ==> final(self).spec_released()
                && final(rt).freed@ == old(rt).freed@.push(old(self).spec_handle()),
            !old(self).spec_releases_on_drop() ==> *final(self) == *old(self) && final(rt).freed@
                == old(rt).freed@,
            !final(self).spec_releases_on_drop(),
            *final(rt) == (Runtime { freed: final(rt).freed, ..*old(rt) }),
    {
        if !self.is_released && !self.is_global && !self.is_cloned {
            rt.free_handle(self.handle);
            self.is_released = true;
        }
    }
}

impl Clone for Function {
    /// Duplicates the handle without duplicating ownership: the duplicate
    /// aliases the same native reference, is marked non-owning, and never
    /// triggers a release.
    fn clone(&self) -> (r: Function)
        ensures
            r == self.spec_clone(),
            r.spec_handle() == self.spec_handle(),
            r.spec_global() == self.spec_global(),
            r.spec_released() == self.spec_released(),
            r.spec_cloned(),
            !r.spec_releases_on_drop(),
    {
        Function {
            handle: self.handle,
            is_global: self.is_global,
            is_released: self.is_released,
            is_cloned: true,
        }
    }
}

/// Returns a registered global function by name: `None` where the registry
/// does not bind the name, and where it binds it to the null reference. The
/// caller chooses through `is_global` whether the handle is treated as
/// registry-owned. The name crosses the boundary as a C string, so it must
/// carry no interior NUL.
pub fn get_global_func(name: &str, is_global: bool, rt: &Runtime) -> (r: Option<Function>)
    requires
        nul_free(name@),
    ensures
        match spec_resolves(rt.registry@, name@) {
            Some(h) => r matches Some(f) && f.spec_handle() == h && f.spec_global() == is_global
                && !f.spec_released() && !f.spec_cloned(),
            None => r is None,
        },
{
    match rt.lookup_global(name) {
        Some(handle) => {
            if handle != 0 {
                Some(Function::new(handle, is_global, false))
            } else {
                None
            }
        },
        None => None,
    }
}

impl Function {
    /// Resolves a name to a global function. The frontend's name snapshot is
    /// consulted first; a name missing from the snapshot falls back to a
    /// direct registry lookup rather than failing, since the snapshot is
    /// stale-tolerant and never refreshed after a registration. A name bound
    /// to the null reference resolves to nothing.
    pub fn get_function(name: &str, is_global: bool, rt: &mut Runtime) -> (r: Option<Function>)
        requires
            nul_free(name@),
        ensures
            final(rt).same_except_names_cache(old(rt)),
            final(rt).names_cache is Some,
            match spec_resolves(old(rt).registry@, name@) {
                Some(h) => r matches Some(f) && f.spec_handle() == h && f.spec_global()
                    == is_global && !f.spec_released() && !f.spec_cloned(),
                None => r is None,
            },
    {
        let owned = name.to_owned();
        let mut found: Option<String> = None;
        {
            let names = rt.global_function_names();
            let mut i: usize = 0;
            while i < names.len()
                invariant
                    owned@ == name@,
                    found matches Some(s) ==> s@ == name@,
                    found is None ==> true,
                decreases names@.len() - i,
            {
                if names[i] == owned {
                    found = Some(names[i].clone());
                    break ;
                }
                i += 1;
            }
        }
        match found {
            Some(cached) => get_global_func(cached.as_str(), is_global, rt),
            None => get_global_func(name, is_global, rt),
        }
    }
}

/// The invocation builder: an optional callee, an ordered argument buffer,
/// and at most one output slot. Each invocation serializes afresh from the
/// current buffers; nothing is carried between calls.
#[derive(Debug)]
pub struct Builder {
    /// The callee to invoke.
    pub func: Option<Function>,
    /// The accumulated arguments; insertion order is call order.
    pub arg_buf: Option<Vec<TVMArgValue>>,
    /// The single output slot, where the convention writes in place.
    pub ret_buf: Option<TVMRetValue>,
}

impl Builder {
    /// The accumulated arguments, in insertion order.
    pub open spec fn spec_args(&self) -> Seq<TVMArgValue> {
        match self.arg_buf {
            Some(v) => v@,
            None => Seq::empty(),
        }
    }

    /// The views of the accumulated arguments, in insertion order.
    pub open spec fn spec_arg_views(&self) -> Seq<TaggedView> {
        self.spec_args().map(|i: int, a: TVMArgValue| a@)
    }

    /// The wire image of one invocation: the arguments in insertion order,
    /// then — where an output slot is set — the slot as one additional
    /// trailing pair, so the callee can populate it in place.
    pub open spec fn spec_wire(&self) -> Seq<TaggedView> {
        match self.ret_buf {
            Some(r) => self.spec_arg_views().push(r@),
            None => self.spec_arg_views(),
        }
    }

    /// The payload buffer of the wire image.
    pub open spec fn spec_wire_payloads(&self) -> Seq<PayloadView> {
        self.spec_wire().map(|i: int, t: TaggedView| t.value.inner)
    }

    /// The parallel tag-code buffer of the wire image.
    pub open spec fn spec_wire_codes(&self) -> Seq<u32> {
        self.spec_wire().map(|i: int, t: TaggedView| t.type_code.spec_code())
    }

    /// The argument views a callee's trampoline reconstructs from the wire
    /// image of this builder.
    pub open spec fn spec_callback_views(&self) -> Seq<TaggedView> {
        self.spec_wire().map(
            |i: int, t: TaggedView|
                TaggedView {
                    value: TVMValueView { kind: ValueKind::Handle, inner: t.value.inner },
                    type_code: t.type_code,
                },
        )
    }

    /// Every buffered value carries a tag its payload matches.
    pub open spec fn wf(&self) -> bool {
        &&& forall|i: int| 0 <= i < self.spec_args().len() ==> (#[trigger] self.spec_args()[i]).wf()
        &&& self.ret_buf matches Some(r) ==> r.wf()
    }

    /// Assembles a builder from its parts.
    pub fn new(
        func: Option<Function>,
        arg_buf: Option<Vec<TVMArgValue>>,
        ret_buf: Option<TVMRetValue>,
    ) -> (b: Builder)
        ensures
            b == (Builder { func, arg_buf, ret_buf }),
    {
        Builder { func, arg_buf, ret_buf }
    }

    /// Resolves a name and attaches the resulting callee, replacing any
    /// previous attachment; the buffers are kept. A name bound to the null
    /// reference attaches nothing.
    pub fn get_function(&mut self, name: &str, is_global: bool, rt: &mut Runtime) -> (r: &mut
        Builder)
        requires
            nul_free(name@),
        ensures
            final(rt).same_except_names_cache(old(rt)),
            (*r).arg_buf == old(self).arg_buf,
            (*r).ret_buf == old(self).ret_buf,
            match spec_resolves(old(rt).registry@, name@) {
                Some(h) => (*r).func matches Some(f) && f.spec_handle() == h && f.spec_global()
                    == is_global && !f.spec_released() && !f.spec_cloned(),
                None => (*r).func is None,
            },
            *final(self) == *final(r),
    {
        self.func = Function::get_function(name, is_global, rt);
        self
    }

    /// Appends one tagged value to the argument buffer; order is preserved.
    pub fn arg<T: TVMTypable>(&mut self, arg: &T) -> (r: &mut Builder)
        ensures
            (*r).func == old(self).func,
            (*r).ret_buf == old(self).ret_buf,
            (*r).spec_arg_views() == old(self).spec_arg_views().push(spec_arg_of(*arg)),
            old(self).wf() ==> (*r).wf(),
            *final(self) == *final(r),
    {
        let tvm_arg = TVMArgValue::from(arg);
        if self.arg_buf.is_none() {
            let mut buf: Vec<TVMArgValue> = Vec::new();
            buf.push(tvm_arg);
            proof {
                assert(buf@.map(|i: int, a: TVMArgValue| a@) =~= old(
                    self,
                ).spec_arg_views().push(spec_arg_of(*arg)));
            }
            self.arg_buf = Some(buf);
        } else {
            match &mut self.arg_buf {
                Some(buf) => {
                    buf.push(tvm_arg);
                    proof {
                        assert(buf@.map(|i: int, a: TVMArgValue| a@) =~= old(
                            self,
                        ).spec_arg_views().push(spec_arg_of(*arg)));
                    }
                },
                None => {},
            }
        }
        self
    }

    /// Appends many tagged values to the argument buffer, in slice order.
    pub fn args<T: TVMTypable>(&mut self, args: &[T]) -> (r: &mut Builder)
        ensures
            (*r).func == old(self).func,
            (*r).ret_buf == old(self).ret_buf,
            (*r).spec_arg_views() == old(self).spec_arg_views() + args@.map(
                |i: int, a: T| spec_arg_of(a),
            ),
            old(self).wf() ==> (*r).wf(),
            *final(self) == *final(r),
    {
        let mut i: usize = 0;
        while i < args.len()
            invariant
                i <= args@.len(),
                self.func == old(self).func,
                self.ret_buf == old(self).ret_buf,
                self.spec_arg_views() == old(self).spec_arg_views() + args@.map(
                    |k: int, a: T| spec_arg_of(a),
                ).take(i as int),
                old(self).wf() ==> self.wf(),
            decreases args@.len() - i,
        {
            self.arg(&args[i]);
            proof {
                assert(self.spec_arg_views() =~= old(self).spec_arg_views() + args@.map(
                    |k: int, a: T| spec_arg_of(a),
                ).take(i as int + 1));
            }
            i += 1;
        }
        proof {
            assert(self.spec_arg_views() =~= old(self).spec_arg_views() + args@.map(
                |k: int, a: T| spec_arg_of(a),
            ));
        }
        self
    }

    /// Registers the single output slot, replacing any previous one: the
    /// convention passes it as one additional trailing argument for the
    /// callee to populate in place.
    pub fn set_output<T: TVMTypable>(&mut self, arg: &T) -> (r: &mut Builder)
        ensures
            (*r).func == old(self).func,
            (*r).arg_buf == old(self).arg_buf,
            (*r).ret_buf matches Some(out) && out@ == spec_ret_of(*arg),
            old(self).wf() ==> (*r).wf(),
            *final(self) == *final(r),
    {
        self.ret_buf = Some(TVMRetValue::from(arg));
        proof {
            if old(self).wf() {
                assert forall|i: int| 0 <= i < self.spec_args().len() implies (
                #[trigger] self.spec_args()[i]).wf() by {
                    assert(self.spec_args()[i] == old(self).spec_args()[i]);
                }
            }
        }
        self
    }
}

impl Builder {
    /// Performs exactly one native call: serializes the argument buffer into
    /// parallel payload and tag buffers in insertion order, appends the
    /// output slot as one trailing pair where set, dispatches, and decodes
    /// the returned pair into an owned return value. Fails with
    /// `FunctionNotFound` when no callee is attached, and with
    /// `NativeCallFailed` — carrying the last-error text — on a non-zero
    /// native status.
    ///
    /// The native side would reach the callee through the type-erased
    /// binding behind the attached handle; `callee` supplies that code here,
    /// and the contract relates the result to whatever `callee` may return.
    pub fn invoke<F: Fn(Vec<TVMArgValue>) -> Result<TVMRetValue, TVMError>>(
        &self,
        rt: &mut Runtime,
        callee: F,
    ) -> (res: Result<TVMRetValue, TVMError>)
        requires
            self.wf(),
            forall|v: Vec<TVMArgValue>|
                v@.map(|i: int, a: TVMArgValue| a@) == self.spec_callback_views()
                    ==> call_requires(callee, (v,)),
        ensures
            self.func is None ==> (res matches Err(e) && e == TVMError::FunctionNotFound
                && *final(rt) == *old(rt)),
            self.func is Some ==> final(rt).converted@ == old(rt).converted@
                + spec_converted_handles(self.spec_wire_payloads(), self.spec_wire_codes())
                && final(rt).same_except_dispatch(old(rt)) && exists|
                v: Vec<TVMArgValue>,
                r: Result<TVMRetValue, TVMError>,
            |
                {
                    &&& v@.map(|i: int, a: TVMArgValue| a@) == self.spec_callback_views()
                    &&& #[trigger] call_ensures(callee, (v,), r)
                    &&& match r {
                        Ok(rv) => if rv.wf() {
                            &&& res matches Ok(out)
                            &&& out@ == (TaggedView {
                                value: TVMValueView {
                                    kind: ValueKind::Return,
                                    inner: rv@.value.inner,
                                },
                                type_code: rv@.type_code,
                            })
                            &&& out.wf()
                            &&& final(rt).last_error == old(rt).last_error
                        } else {
                            &&& res matches Err(e)
                            &&& e matches TVMError::NativeCallFailed { message }
                            &&& message@ == spec_bad_result_message()
                            &&& final(rt).last_error@ == spec_bad_result_message()
                        },
                        Err(e0) => {
                            &&& res matches Err(e)
                            &&& e matches TVMError::NativeCallFailed { message }
                            &&& message@ == e0.spec_message()
                            &&& final(rt).last_error@ == e0.spec_message()
                        },
                    }
                },
    {
        if self.func.is_none() {
            return Err(TVMError::FunctionNotFound);
        }
        let mut values: Vec<Payload> = Vec::new();
        let mut tcodes: Vec<u32> = Vec::new();
        match &self.arg_buf {
            Some(buf) => {
                let mut i: usize = 0;
                while i < buf.len()
                    invariant
                        self.arg_buf matches Some(b) && b == buf,
                        i <= buf@.len(),
                        values@.len() == i,
                        tcodes@.len() == i,
                        forall|k: int|
                            0 <= k < i ==> (#[trigger] values@[k])@
                                == self.spec_arg_views()[k].value.inner,
                        forall|k: int|
                            0 <= k < i ==> #[trigger] tcodes@[k]
                                == self.spec_arg_views()[k].type_code.spec_code(),
                    decreases buf@.len() - i,
                {
                    values.push(buf[i].value.inner.clone());
                    tcodes.push(buf[i].type_code.code());
                    proof {
                        assert(self.spec_arg_views()[i as int] == buf@[i as int]@);
                    }
                    i += 1;
                }
            },
            None => {},
        }
        match &self.ret_buf {
            Some(out_slot) => {
                values.push(out_slot.value.inner.clone());
                tcodes.push(out_slot.type_code.code());
            },
            None => {},
        }
        proof {
            assert(values@.map(|k: int, p: Payload| p@) =~= self.spec_wire_payloads()) by {
                assert forall|k: int| 0 <= k < self.spec_wire().len() implies (
                #[trigger] values@[k])@ == self.spec_wire()[k].value.inner by {
                    if k < self.spec_arg_views().len() {
                        assert(self.spec_wire()[k] == self.spec_arg_views()[k]);
                    }
                }
            }
            assert(tcodes@ =~= self.spec_wire_codes()) by {
                assert forall|k: int| 0 <= k < self.spec_wire().len() implies #[trigger] tcodes@[k]
                    == self.spec_wire()[k].type_code.spec_code() by {
                    if k < self.spec_arg_views().len() {
                        assert(self.spec_wire()[k] == self.spec_arg_views()[k]);
                    }
                }
            }
            assert forall|i: int| 0 <= i < tcodes@.len() implies spec_code_valid(
                values@[i]@,
                #[trigger] tcodes@[i],
            ) by {
                let t = self.spec_wire()[i];
                crate::ty::lemma_tag_code_round_trip(t.type_code);
                if i < self.spec_args().len() {
                    assert((self.spec_args()[i]).wf());
                    assert(t == self.spec_args()[i]@);
                } else {
                    assert(self.ret_buf matches Some(rb) && t == rb@);
                }
                assert(t.wf());
            }
            assert(spec_decoded_views(values@.map(|k: int, p: Payload| p@), tcodes@)
                =~= self.spec_callback_views()) by {
                assert forall|i: int| 0 <= i < self.spec_wire().len() implies spec_decoded_view(
                    self.spec_wire_payloads()[i],
                    self.spec_wire_codes()[i],
                ) == self.spec_callback_views()[i] by {
                    crate::ty::lemma_tag_code_round_trip(self.spec_wire()[i].type_code);
                }
            }
        }
        let mut ret_slot: Option<(Payload, u32)> = None;
        let (status, wit) = tvm_callback(&values, &tcodes, &mut ret_slot, callee, rt);
        if status != 0 {
            return Err(TVMError::NativeCallFailed { message: rt.get_last() });
        }
        match ret_slot {
            Some((payload, code)) => {
                proof {
                    match wit@.1 {
                        Ok(rv) => crate::ty::lemma_tag_code_round_trip(rv.type_code),
                        Err(_) => (),
                    }
                }
                let tag = match TypeTag::from_code(code) {
                    Ok(t) => t,
                    Err(_) => unreached(),
                };
                let out = TVMRetValue::new(TVMValue::new(ValueKind::Return, payload), tag);
                Ok(out)
            },
            None => unreached(),
        }
    }
}

impl Default for Builder {
    /// An empty builder: no callee, no arguments, no output slot.
    fn default() -> (b: Builder)
        ensures
            b.func is None,
            b.arg_buf is None,
            b.ret_buf is None,
            b.wf(),
    {
        Builder::new(None, None, None)
    }
}

impl From<Function> for Builder {
    /// Starts a builder from a callee.
    fn from(func: Function) -> (b: Builder) {
        Builder::new(Some(func), None, None)
    }
}

impl vstd::std_specs::convert::FromSpecImpl<Function> for Builder {
    open spec fn obeys_from_spec() -> bool {
        true
    }

    open spec fn from_spec(func: Function) -> Builder {
        Builder { func: Some(func), arg_buf: None, ret_buf: None }
    }
}

/// Whether a wire code names a known tag whose shape the payload has.
pub open spec fn spec_code_valid(p: PayloadView, c: u32) -> bool {
    match TypeTag::spec_of_code(c) {
        Some(t) => tag_matches(t, p),
        None => false,
    }
}

/// The tagged argument view a callback reconstructs from one payload and
/// wire-code pair.
pub open spec fn spec_decoded_view(p: PayloadView, c: u32) -> TaggedView {
    TaggedView {
        value: TVMValueView { kind: ValueKind::Handle, inner: p },
        type_code: match TypeTag::spec_of_code(c) {
            Some(t) => t,
            None => TypeTag::Null,
        },
    }
}

/// The tagged argument views a callback reconstructs from parallel payload
/// and wire-code buffers.
pub open spec fn spec_decoded_views(ps: Seq<PayloadView>, cs: Seq<u32>) -> Seq<TaggedView> {
    Seq::new(ps.len(), |i: int| spec_decoded_view(ps[i], cs[i]))
}

/// The handles among callback arguments whose tags demand the
/// argument-to-return conversion, in argument order.
pub open spec fn spec_converted_handles(ps: Seq<PayloadView>, cs: Seq<u32>) -> Seq<u64>
    decreases ps.len(),
{
    if ps.len() == 0 {
        Seq::empty()
    } else {
        let rest = spec_converted_handles(ps.drop_last(), cs);
        let tag = match TypeTag::spec_of_code(cs[ps.len() - 1]) {
            Some(t) => t,
            None => TypeTag::Null,
        };
        if tag.spec_needs_arg_to_return() && ps.last() is Handle {
            rest.push(ps.last()->Handle_0)
        } else {
            rest
        }
    }
}

/// Reconstructs the tagged argument values of a callback from the parallel
/// payload and tag buffers the native caller hands over; nothing is owned
/// beyond the call. For node, function and module handles — and those three
/// kinds only — the argument-to-return conversion is requested before the
/// value is wrapped, as the convention requires.
fn decode_callback_args(values: &Vec<Payload>, tcodes: &Vec<u32>, rt: &mut Runtime) -> (args: Vec<
    TVMArgValue,
>)
    requires
        values@.len() == tcodes@.len(),
        forall|i: int| 0 <= i < tcodes@.len() ==> spec_code_valid(values@[i]@, #[trigger] tcodes@[i]),
    ensures
        args@.map(|i: int, a: TVMArgValue| a@) == spec_decoded_views(
            values@.map(|i: int, p: Payload| p@),
            tcodes@,
        ),
        forall|i: int| 0 <= i < args@.len() ==> (#[trigger] args@[i]).wf(),
        final(rt).converted@ == old(rt).converted@ + spec_converted_handles(
            values@.map(|i: int, p: Payload| p@),
            tcodes@,
        ),
        final(rt).same_except_dispatch(old(rt)),
        final(rt).last_error == old(rt).last_error,
{
    let ghost pviews = values@.map(|i: int, p: Payload| p@);
    let mut args: Vec<TVMArgValue> = Vec::new();
    let mut i: usize = 0;
    while i < values.len()
        invariant
            values@.len() == tcodes@.len(),
            forall|k: int|
                0 <= k < tcodes@.len() ==> spec_code_valid(values@[k]@, #[trigger] tcodes@[k]),
            pviews == values@.map(|k: int, p: Payload| p@),
            i <= values@.len(),
            args@.len() == i,
            args@.map(|k: int, a: TVMArgValue| a@) == spec_decoded_views(pviews, tcodes@).take(
                i as int,
            ),
            forall|k: int| 0 <= k < args@.len() ==> (#[trigger] args@[k]).wf(),
            rt.converted@ == old(rt).converted@ + spec_converted_handles(
                pviews.take(i as int),
                tcodes@,
            ),
            rt.same_except_dispatch(old(rt)),
            rt.last_error == old(rt).last_error,
        decreases values@.len() - i,
    {
        let code = tcodes[i];
        let tag = match TypeTag::from_code(code) {
            Ok(t) => t,
            Err(_) => unreached(),
        };
        if tag.needs_arg_to_return() {
            match &values[i] {
                Payload::Handle(h) => rt.cb_arg_to_return(*h),
                _ => unreached(),
            }
        }
        let payload = values[i].clone();
        args.push(TVMArgValue::new(TVMValue::new(ValueKind::Handle, payload), tag));
        proof {
            assert(pviews.take(i + 1).drop_last() =~= pviews.take(i as int));
            assert(pviews.take(i + 1).last() == pviews[i as int]);
            assert(args@.map(|k: int, a: TVMArgValue| a@) =~= spec_decoded_views(
                pviews,
                tcodes@,
            ).take(i + 1));
            assert(rt.converted@ =~= old(rt).converted@ + spec_converted_handles(
                pviews.take(i + 1),
                tcodes@,
            ));
        }
        i += 1;
    }
    proof {
        assert(pviews.take(pviews.len() as int) =~= pviews);
        assert(args@.map(|k: int, a: TVMArgValue| a@) =~= spec_decoded_views(pviews, tcodes@));
    }
    args
}

/// The failure text recorded when a callee hands back a value whose tag and
/// payload disagree: such a value is refused rather than sent across the
/// boundary.
pub open spec fn spec_bad_result_message() -> Seq<char> {
    "packed function returned a value whose tag and payload disagree"@
}

/// What a trampoline dispatch may report of its callee: `wit` names the
/// reconstructed argument values and the callee's result, and the status,
/// return slot and error channel follow from that result.
pub open spec fn spec_callback_post(
    views: Seq<TaggedView>,
    wit: (Vec<TVMArgValue>, Result<TVMRetValue, TVMError>),
    status: i32,
    ret0: Option<(Payload, u32)>,
    ret1: Option<(Payload, u32)>,
    err0: String,
    err1: String,
) -> bool {
    &&& wit.0@.map(|i: int, a: TVMArgValue| a@) == views
    &&& match wit.1 {
        Ok(rv) => if rv.wf() {
            &&& status == 0
            &&& ret1 matches Some(pair) && pair.0@ == rv@.value.inner && pair.1
                == rv@.type_code.spec_code()
            &&& err1 == err0
        } else {
            &&& status == -1
            &&& ret1 == ret0
            &&& err1@ == spec_bad_result_message()
        },
        Err(e) => {
            &&& status == -1
            &&& ret1 == ret0
            &&& err1@ == e.spec_message()
        },
    }
}

/// The callback trampoline: reconstructs the argument values from the raw
/// buffers, dispatches the host callee, and writes its result into the
/// native caller's return slot. A failure is recorded in the last-error
/// channel and signalled through the non-zero sentinel status — it never
/// unwinds across the boundary. The ghost result names the argument values
/// and the callee's result, so callers can connect the outcome to the
/// callee's own contract.
pub(crate) fn tvm_callback<F: Fn(Vec<TVMArgValue>) -> Result<TVMRetValue, TVMError>>(
    values: &Vec<Payload>,
    tcodes: &Vec<u32>,
    ret: &mut Option<(Payload, u32)>,
    callee: F,
    rt: &mut Runtime,
) -> (out: (i32, Ghost<(Vec<TVMArgValue>, Result<TVMRetValue, TVMError>)>))
    requires
        values@.len() == tcodes@.len(),
        forall|i: int| 0 <= i < tcodes@.len() ==> spec_code_valid(values@[i]@, #[trigger] tcodes@[i]),
        forall|v: Vec<TVMArgValue>|
            v@.map(|i: int, a: TVMArgValue| a@) == spec_decoded_views(
                values@.map(|i: int, p: Payload| p@),
                tcodes@,
            ) ==> call_requires(callee, (v,)),
    ensures
        call_ensures(callee, (out.1@.0,), out.1@.1),
        spec_callback_post(
            spec_decoded_views(values@.map(|i: int, p: Payload| p@), tcodes@),
            out.1@,
            out.0,
            *old(ret),
            *final(ret),
            old(rt).last_error,
            final(rt).last_error,
        ),
        final(rt).converted@ == old(rt).converted@ + spec_converted_handles(
            values@.map(|i: int, p: Payload| p@),
            tcodes@,
        ),
        final(rt).same_except_dispatch(old(rt)),
{
    let local_args = decode_callback_args(values, tcodes, rt);
    let ghost gargs = local_args;
    let rv = callee(local_args);
    let ghost gres = rv;
    match rv {
        Ok(v) => {
            if v.check_wf() {
                let code = v.type_code.code();
                *ret = Some((v.value.inner, code));
                (0, Ghost((gargs, gres)))
            } else {
                rt.set_last(
                    String::from_str(
                        "packed function returned a value whose tag and payload disagree",
                    ),
                );
                (-1, Ghost((gargs, gres)))
            }
        },
        Err(e) => {
            rt.set_last(e.message());
            (-1, Ghost((gargs, gres)))
        },
    }
}

/// Wraps a host callee as a native callable: the native side allocates a
/// fresh handle and binds the callee and its finalizer to it, type-erased.
/// That binding cannot be read back, so dispatch sites take the callee again
/// beside the handle. The resulting handle is owning, neither global nor
/// cloned nor released.
#[allow(unused_variables)]
pub(crate) fn convert_to_tvm_func<F: Fn(Vec<TVMArgValue>) -> Result<TVMRetValue, TVMError>>(
    f: &F,
    rt: &mut Runtime,
) -> (func: Function)
    requires
        old(rt).next_handle < u64::MAX,
    ensures
        func.spec_handle() == old(rt).next_handle,
        !func.spec_global(),
        !func.spec_released(),
        !func.spec_cloned(),
        final(rt).next_handle == old(rt).next_handle + 1,
        final(rt).registry == old(rt).registry,
        final(rt).modules == old(rt).modules,
        final(rt).last_error == old(rt).last_error,
        final(rt).freed == old(rt).freed,
        final(rt).converted == old(rt).converted,
        final(rt).names_cache == old(rt).names_cache,
        old(rt).wf() ==> final(rt).wf(),
{
    let fhandle = rt.alloc_handle();
    Function::new(fhandle, false, false)
}

/// Registers a host callee as a global packed function under `name`: the
/// callee is wrapped as a native callable and its handle is bound in the
/// global registry. Without `override_`, a name already bound is refused
/// with `DuplicateName` and the registry is left as it was; with it, the
/// binding is replaced. The name crosses the boundary as a C string, so it
/// must carry no interior NUL.
pub fn register<F: Fn(Vec<TVMArgValue>) -> Result<TVMRetValue, TVMError>>(
    f: &F,
    name: String,
    override_: bool,
    rt: &mut Runtime,
) -> (r: Result<(), TVMError>)
    requires
        nul_free(name@),
        old(rt).wf(),
        old(rt).next_handle < u64::MAX,
    ensures
        final(rt).wf(),
        (final(rt).registry@, r) == spec_register(
            old(rt).registry@,
            RegEntry { name, handle: old(rt).next_handle },
            override_,
        ),
        final(rt).next_handle == old(rt).next_handle + 1,
        final(rt).modules == old(rt).modules,
        final(rt).last_error == old(rt).last_error,
        final(rt).freed == old(rt).freed,
        final(rt).converted == old(rt).converted,
        final(rt).names_cache == old(rt).names_cache,
{
    let func = convert_to_tvm_func(f, rt);
    rt.register_global(name, func.handle(), override_)
}

/// Builder determinism: the wire image carries the arguments in insertion
/// order; where an output slot is set it stands as the one trailing pair, at
/// the position equal to the argument count; the payload and tag-code
/// buffers are the parallel projections of that image.
pub proof fn lemma_builder_determinism(b: Builder)
    ensures
        forall|i: int|
            0 <= i < b.spec_arg_views().len() ==> #[trigger] b.spec_wire()[i]
                == b.spec_arg_views()[i],
        b.ret_buf is None ==> b.spec_wire() == b.spec_arg_views(),
        b.ret_buf matches Some(r) ==> b.spec_wire().len() == b.spec_arg_views().len() + 1
            && b.spec_wire()[b.spec_arg_views().len() as int] == r@,
        b.spec_wire_payloads().len() == b.spec_wire().len(),
        b.spec_wire_codes().len() == b.spec_wire().len(),
        forall|i: int|
            0 <= i < b.spec_wire().len() ==> #[trigger] b.spec_wire_payloads()[i]
                == b.spec_wire()[i].value.inner,
        forall|i: int|
            0 <= i < b.spec_wire().len() ==> #[trigger] b.spec_wire_codes()[i]
                == b.spec_wire()[i].type_code.spec_code(),
{
}

/// Registration collision: registering a name on a registry that does not
/// bind it succeeds; registering it again without `override` is refused with
/// `DuplicateName` and leaves the registry exactly as the first registration
/// left it.
pub proof fn lemma_register_collision(entries: Seq<RegEntry>, e1: RegEntry, e2: RegEntry)
    requires
        e1.name@ == e2.name@,
        !crate::runtime::spec_contains(entries, e1.name@),
    ensures
        spec_register(entries, e1, false).1 == Ok::<(), TVMError>(()),
        spec_register(spec_register(entries, e1, false).0, e2, false).0 == spec_register(
            entries,
            e1,
            false,
        ).0,
        spec_register(spec_register(entries, e1, false).0, e2, false).1 == Err::<(), TVMError>(
            TVMError::DuplicateName { name: e2.name },
        ),
{
    crate::runtime::lemma_lookup_push(entries, e1, e2.name@);
}

/// Registration override: registering the same name again with `override`
/// succeeds, subsequent lookups of the name resolve to the second handle,
/// and every other name resolves as it did before either registration.
pub proof fn lemma_register_override(entries: Seq<RegEntry>, e1: RegEntry, e2: RegEntry)
    requires
        e1.name@ == e2.name@,
        !crate::runtime::spec_contains(entries, e1.name@),
        crate::runtime::names_unique(entries),
    ensures
        spec_register(spec_register(entries, e1, false).0, e2, true).1 == Ok::<(), TVMError>(()),
        spec_lookup(spec_register(spec_register(entries, e1, false).0, e2, true).0, e2.name@)
            == Some(e2.handle),
        forall|n: Seq<char>|
            n != e1.name@ ==> spec_lookup(
                spec_register(spec_register(entries, e1, false).0, e2, true).0,
                n,
            ) == spec_lookup(entries, n),
{
    let after1 = spec_register(entries, e1, false).0;
    crate::runtime::lemma_lookup_push(entries, e1, e2.name@);
    crate::runtime::lemma_register_preserves_unique(entries, e1, false);
    crate::runtime::lemma_lookup_update(after1, e2, e2.name@);
    assert(spec_register(after1, e2, true).0 == after1.update(
        crate::runtime::spec_index_of(after1, e2.name@),
        e2,
    ));
    assert forall|n: Seq<char>| n != e1.name@ implies spec_lookup(
        spec_register(after1, e2, true).0,
        n,
    ) == spec_lookup(entries, n) by {
        crate::runtime::lemma_lookup_update(after1, e2, n);
        crate::runtime::lemma_lookup_push(entries, e1, n);
    }
}

/// A handle resolved as global is never released by dropping it.
pub proof fn lemma_global_never_released(f: Function)
    requires
        f.spec_global(),
    ensures
        f.spec_release_count() == 0,
{
}

/// Dropping an instance and its clone issues at most one release between
/// them, whatever state the instance was in.
pub proof fn lemma_clone_releases_at_most_once(f: Function)
    ensures
        f.spec_release_count() + f.spec_clone().spec_release_count() <= 1,
{
}

} // verus!
