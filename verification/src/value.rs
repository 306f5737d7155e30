//! The tagged-value representation of the calling convention, and the typed
//! argument / return wrappers around it.
//!
//! Every wire value is a payload paired with a [`TypeTag`]; the pair is
//! constructed together and a payload is never interpreted without its tag.
//! Contracts speak of values through their views: [`PayloadView`],
//! [`TVMValueView`] and the argument / return views built from them.

use vstd::prelude::*;

use crate::ty::TypeTag;
use crate::TVMError;

verus! {

/// The fixed-width payload of a wire value. Floating point payloads are
/// carried as their raw bit pattern: the bits cross this layer unchanged and
/// are only reinterpreted as a number on the host side of the boundary.
#[derive(Debug)]
pub enum Payload {
    /// A signed integer.
    Int(i64),
    /// An unsigned integer.
    UInt(u64),
    /// The bit pattern of a double-width floating point number.
    FloatBits(u64),
    /// An opaque native reference; `0` is the null reference.
    Handle(u64),
    /// The characters of a string argument.
    Text(String),
    /// The contents of a byte-buffer argument.
    Buffer(Vec<u8>),
    /// No payload.
    Unit,
}

/// The mathematical value of a [`Payload`].
pub enum PayloadView {
    /// A signed integer.
    Int(i64),
    /// An unsigned integer.
    UInt(u64),
    /// The bit pattern of a double-width floating point number.
    FloatBits(u64),
    /// An opaque native reference.
    Handle(u64),
    /// The characters of a string argument.
    Text(Seq<char>),
    /// The contents of a byte-buffer argument.
    Buffer(Seq<u8>),
    /// No payload.
    Unit,
}

impl View for Payload {
    type V = PayloadView;

    open spec fn view(&self) -> PayloadView {
        match self {
            Payload::Int(v) => PayloadView::Int(*v),
            Payload::UInt(v) => PayloadView::UInt(*v),
            Payload::FloatBits(v) => PayloadView::FloatBits(*v),
            Payload::Handle(v) => PayloadView::Handle(*v),
            Payload::Text(s) => PayloadView::Text(s@),
            Payload::Buffer(b) => PayloadView::Buffer(b@),
            Payload::Unit => PayloadView::Unit,
        }
    }
}

/// Copies a byte buffer.
fn copy_bytes(b: &Vec<u8>) -> (r: Vec<u8>)
    ensures
        r@ == b@,
{
    let mut out: Vec<u8> = Vec::new();
    let mut i: usize = 0;
    while i < b.len()
        invariant
            i <= b.len(),
            out@ =~= b@.subrange(0, i as int),
        decreases b.len() - i,
    {
        out.push(b[i]);
        i += 1;
    }
    proof {
        assert(out@ =~= b@);
    }
    out
}

impl Clone for Payload {
    /// Duplicates the payload; the duplicate denotes the same wire value.
    fn clone(&self) -> (r: Payload)
        ensures
            r@ == self@,
    {
        match self {
            Payload::Int(v) => Payload::Int(*v),
            Payload::UInt(v) => Payload::UInt(*v),
            Payload::FloatBits(v) => Payload::FloatBits(*v),
            Payload::Handle(v) => Payload::Handle(*v),
            Payload::Text(s) => Payload::Text(s.clone()),
            Payload::Buffer(b) => Payload::Buffer(copy_bytes(b)),
            Payload::Unit => Payload::Unit,
        }
    }
}

/// Whether a payload is of the shape a tag announces. A handle payload may
/// travel under any of the handle tags; every other tag has one shape.
pub open spec fn tag_matches(tag: TypeTag, payload: PayloadView) -> bool {
    match tag {
        TypeTag::Int => payload is Int,
        TypeTag::UInt => payload is UInt,
        TypeTag::Float => payload is FloatBits,
        TypeTag::Handle => payload is Handle,
        TypeTag::ArrayHandle => payload is Handle,
        TypeTag::NodeHandle => payload is Handle,
        TypeTag::ModuleHandle => payload is Handle,
        TypeTag::FuncHandle => payload is Handle,
        TypeTag::Null => payload is Unit,
        TypeTag::Str => payload is Text,
        TypeTag::Bytes => payload is Buffer,
    }
}

/// Where a wire value came from: its provenance decides who owns what it
/// refers to.
#[derive(Debug, Clone, Copy, PartialEq, Eq, Structural)]
pub enum ValueKind {
    /// Borrowed from a host value at an argument position; no ownership moves.
    Argument,
    /// Produced at a return position; may carry ownership to be released once.
    Return,
    /// Reconstructed inside a callback from the raw buffers the native caller
    /// handed over; borrowed for the duration of the call.
    Handle,
}

/// A payload together with its provenance.
#[derive(Debug)]
pub struct TVMValue {
    /// The provenance of the payload.
    pub kind: ValueKind,
    /// The payload itself.
    pub inner: Payload,
}

/// The mathematical value of a [`TVMValue`].
pub struct TVMValueView {
    /// The provenance of the payload.
    pub kind: ValueKind,
    /// The payload itself.
    pub inner: PayloadView,
}

impl View for TVMValue {
    type V = TVMValueView;

    open spec fn view(&self) -> TVMValueView {
        TVMValueView { kind: self.kind, inner: self.inner@ }
    }
}

impl TVMValue {
    /// Pairs a payload with its provenance.
    pub fn new(kind: ValueKind, inner: Payload) -> (v: TVMValue)
        ensures
            v == (TVMValue { kind, inner }),
    {
        TVMValue { kind, inner }
    }
}

/// The mathematical value of an argument or return wrapper: a tagged payload
/// with its provenance.
pub struct TaggedView {
    /// The payload and its provenance.
    pub value: TVMValueView,
    /// The tag under which the payload travels.
    pub type_code: TypeTag,
}

impl TaggedView {
    /// Whether the tag and the payload agree.
    pub open spec fn wf(&self) -> bool {
        tag_matches(self.type_code, self.value.inner)
    }
}

/// A borrowed argument value: a tagged payload at an argument position. It
/// never owns a handle and is never the site of release logic.
#[derive(Debug)]
pub struct TVMArgValue {
    /// The payload and its provenance.
    pub value: TVMValue,
    /// The tag under which the payload travels.
    pub type_code: TypeTag,
}

impl View for TVMArgValue {
    type V = TaggedView;

    open spec fn view(&self) -> TaggedView {
        TaggedView { value: self.value@, type_code: self.type_code }
    }
}

/// An owned return value: a tagged payload at a return position, responsible
/// for any one-time release its tag implies.
#[derive(Debug)]
pub struct TVMRetValue {
    /// The payload and its provenance.
    pub value: TVMValue,
    /// The tag under which the payload travels.
    pub type_code: TypeTag,
}

impl View for TVMRetValue {
    type V = TaggedView;

    open spec fn view(&self) -> TaggedView {
        TaggedView { value: self.value@, type_code: self.type_code }
    }
}

impl TVMArgValue {
    /// Whether the tag and the payload of this value agree.
    pub open spec fn wf(&self) -> bool {
        self@.wf()
    }

    /// Pairs a value with its tag. The two travel together from here on.
    pub fn new(value: TVMValue, type_code: TypeTag) -> (a: TVMArgValue)
        requires
            tag_matches(type_code, value.inner@),
        ensures
            a == (TVMArgValue { value, type_code }),
            a.wf(),
    {
        TVMArgValue { value, type_code }
    }
}

impl TVMRetValue {
    /// Whether the tag and the payload of this value agree.
    pub open spec fn wf(&self) -> bool {
        self@.wf()
    }

    /// Pairs a value with its tag. The two travel together from here on.
    pub fn new(value: TVMValue, type_code: TypeTag) -> (r: TVMRetValue)
        requires
            tag_matches(type_code, value.inner@),
        ensures
            r == (TVMRetValue { value, type_code }),
            r.wf(),
    {
        TVMRetValue { value, type_code }
    }

    /// Returns whether the tag and the payload of this value agree.
    pub fn check_wf(&self) -> (b: bool)
        ensures
            b == self.wf(),
    {
        match self.type_code {
            TypeTag::Int => matches!(self.value.inner, Payload::Int(_)),
            TypeTag::UInt => matches!(self.value.inner, Payload::UInt(_)),
            TypeTag::Float => matches!(self.value.inner, Payload::FloatBits(_)),
            TypeTag::Handle => matches!(self.value.inner, Payload::Handle(_)),
            TypeTag::ArrayHandle => matches!(self.value.inner, Payload::Handle(_)),
            TypeTag::NodeHandle => matches!(self.value.inner, Payload::Handle(_)),
            TypeTag::ModuleHandle => matches!(self.value.inner, Payload::Handle(_)),
            TypeTag::FuncHandle => matches!(self.value.inner, Payload::Handle(_)),
            TypeTag::Null => matches!(self.value.inner, Payload::Unit),
            TypeTag::Str => matches!(self.value.inner, Payload::Text(_)),
            TypeTag::Bytes => matches!(self.value.inner, Payload::Buffer(_)),
        }
    }
}

/// Whether a tag is one of the opaque handle tags.
pub open spec fn is_handle_tag(tag: TypeTag) -> bool {
    tag == TypeTag::Handle || tag == TypeTag::ArrayHandle || tag == TypeTag::NodeHandle || tag
        == TypeTag::ModuleHandle || tag == TypeTag::FuncHandle
}

impl TaggedView {
    /// What the signed-integer accessor extracts: the payload on the exact
    /// tag, a mismatch report on every other.
    pub open spec fn spec_to_int(self) -> Result<i64, TVMError> {
        if self.type_code == TypeTag::Int && self.value.inner is Int {
            Ok(self.value.inner->Int_0)
        } else {
            Err(TVMError::TypeMismatch { expected: TypeTag::Int, actual: self.type_code })
        }
    }

    /// What the unsigned-integer accessor extracts.
    pub open spec fn spec_to_uint(self) -> Result<u64, TVMError> {
        if self.type_code == TypeTag::UInt && self.value.inner is UInt {
            Ok(self.value.inner->UInt_0)
        } else {
            Err(TVMError::TypeMismatch { expected: TypeTag::UInt, actual: self.type_code })
        }
    }

    /// What the floating-point accessor extracts: the raw bit pattern.
    pub open spec fn spec_to_float_bits(self) -> Result<u64, TVMError> {
        if self.type_code == TypeTag::Float && self.value.inner is FloatBits {
            Ok(self.value.inner->FloatBits_0)
        } else {
            Err(TVMError::TypeMismatch { expected: TypeTag::Float, actual: self.type_code })
        }
    }

    /// What the string accessor extracts.
    pub open spec fn spec_to_text(self) -> Result<Seq<char>, TVMError> {
        if self.type_code == TypeTag::Str && self.value.inner is Text {
            Ok(self.value.inner->Text_0)
        } else {
            Err(TVMError::TypeMismatch { expected: TypeTag::Str, actual: self.type_code })
        }
    }

    /// What the byte-buffer accessor extracts.
    pub open spec fn spec_to_bytes(self) -> Result<Seq<u8>, TVMError> {
        if self.type_code == TypeTag::Bytes && self.value.inner is Buffer {
            Ok(self.value.inner->Buffer_0)
        } else {
            Err(TVMError::TypeMismatch { expected: TypeTag::Bytes, actual: self.type_code })
        }
    }

    /// What the handle accessor extracts: the opaque reference behind any of
    /// the handle tags.
    pub open spec fn spec_to_handle(self) -> Result<u64, TVMError> {
        if is_handle_tag(self.type_code) && self.value.inner is Handle {
            Ok(self.value.inner->Handle_0)
        } else {
            Err(TVMError::TypeMismatch { expected: TypeTag::Handle, actual: self.type_code })
        }
    }
}

/// Extracts the signed integer behind the `Int` tag.
fn extract_int(value: &TVMValue, type_code: TypeTag) -> (r: Result<i64, TVMError>)
    ensures
        r == (TaggedView { value: value@, type_code }).spec_to_int(),
{
    match &value.inner {
        Payload::Int(v) if type_code == TypeTag::Int => Ok(*v),
        _ => Err(TVMError::TypeMismatch { expected: TypeTag::Int, actual: type_code }),
    }
}

/// Extracts the unsigned integer behind the `UInt` tag.
fn extract_uint(value: &TVMValue, type_code: TypeTag) -> (r: Result<u64, TVMError>)
    ensures
        r == (TaggedView { value: value@, type_code }).spec_to_uint(),
{
    match &value.inner {
        Payload::UInt(v) if type_code == TypeTag::UInt => Ok(*v),
        _ => Err(TVMError::TypeMismatch { expected: TypeTag::UInt, actual: type_code }),
    }
}

/// Extracts the floating-point bit pattern behind the `Float` tag.
fn extract_float_bits(value: &TVMValue, type_code: TypeTag) -> (r: Result<u64, TVMError>)
    ensures
        r == (TaggedView { value: value@, type_code }).spec_to_float_bits(),
{
    match &value.inner {
        Payload::FloatBits(v) if type_code == TypeTag::Float => Ok(*v),
        _ => Err(TVMError::TypeMismatch { expected: TypeTag::Float, actual: type_code }),
    }
}

/// Extracts a copy of the string behind the `Str` tag.
fn extract_text(value: &TVMValue, type_code: TypeTag) -> (r: Result<String, TVMError>)
    ensures
        match r {
            Ok(s) => (TaggedView { value: value@, type_code }).spec_to_text() == Ok::<_, TVMError>(
                s@,
            ),
            Err(e) => (TaggedView { value: value@, type_code }).spec_to_text() == Err::<
                Seq<char>,
                _,
            >(e),
        },
{
    match &value.inner {
        Payload::Text(s) if type_code == TypeTag::Str => Ok(s.clone()),
        _ => Err(TVMError::TypeMismatch { expected: TypeTag::Str, actual: type_code }),
    }
}

/// Extracts a copy of the byte buffer behind the `Bytes` tag.
fn extract_bytes(value: &TVMValue, type_code: TypeTag) -> (r: Result<Vec<u8>, TVMError>)
    ensures
        match r {
            Ok(b) => (TaggedView { value: value@, type_code }).spec_to_bytes() == Ok::<_, TVMError>(
                b@,
            ),
            Err(e) => (TaggedView { value: value@, type_code }).spec_to_bytes() == Err::<
                Seq<u8>,
                _,
            >(e),
        },
{
    match &value.inner {
        Payload::Buffer(b) if type_code == TypeTag::Bytes => Ok(copy_bytes(b)),
        _ => Err(TVMError::TypeMismatch { expected: TypeTag::Bytes, actual: type_code }),
    }
}

/// Extracts the opaque reference behind any handle tag.
fn extract_handle(value: &TVMValue, type_code: TypeTag) -> (r: Result<u64, TVMError>)
    ensures
        r == (TaggedView { value: value@, type_code }).spec_to_handle(),
{
    let handle_tag = match type_code {
        TypeTag::Handle => true,
        TypeTag::ArrayHandle => true,
        TypeTag::NodeHandle => true,
        TypeTag::ModuleHandle => true,
        TypeTag::FuncHandle => true,
        _ => false,
    };
    match &value.inner {
        Payload::Handle(v) if handle_tag => Ok(*v),
        _ => Err(TVMError::TypeMismatch { expected: TypeTag::Handle, actual: type_code }),
    }
}

impl TVMArgValue {
    /// Extracts the signed integer behind the `Int` tag.
    pub fn to_int(&self) -> (r: Result<i64, TVMError>)
        ensures
            r == self@.spec_to_int(),
    {
        extract_int(&self.value, self.type_code)
    }

    /// Extracts the unsigned integer behind the `UInt` tag.
    pub fn to_uint(&self) -> (r: Result<u64, TVMError>)
        ensures
            r == self@.spec_to_uint(),
    {
        extract_uint(&self.value, self.type_code)
    }

    /// Extracts the floating-point bit pattern behind the `Float` tag.
    pub fn to_float_bits(&self) -> (r: Result<u64, TVMError>)
        ensures
            r == self@.spec_to_float_bits(),
    {
        extract_float_bits(&self.value, self.type_code)
    }

    /// Extracts a copy of the string behind the `Str` tag.
    pub fn to_string(&self) -> (r: Result<String, TVMError>)
        ensures
            match r {
                Ok(s) => self@.spec_to_text() == Ok::<_, TVMError>(s@),
                Err(e) => self@.spec_to_text() == Err::<Seq<char>, _>(e),
            },
    {
        extract_text(&self.value, self.type_code)
    }

    /// Extracts a copy of the byte buffer behind the `Bytes` tag.
    pub fn to_bytes(&self) -> (r: Result<Vec<u8>, TVMError>)
        ensures
            match r {
                Ok(b) => self@.spec_to_bytes() == Ok::<_, TVMError>(b@),
                Err(e) => self@.spec_to_bytes() == Err::<Seq<u8>, _>(e),
            },
    {
        extract_bytes(&self.value, self.type_code)
    }

    /// Extracts the opaque reference behind any handle tag.
    pub fn to_handle(&self) -> (r: Result<u64, TVMError>)
        ensures
            r == self@.spec_to_handle(),
    {
        extract_handle(&self.value, self.type_code)
    }
}

impl TVMRetValue {
    /// Extracts the signed integer behind the `Int` tag.
    pub fn to_int(&self) -> (r: Result<i64, TVMError>)
        ensures
            r == self@.spec_to_int(),
    {
        extract_int(&self.value, self.type_code)
    }

    /// Extracts the unsigned integer behind the `UInt` tag.
    pub fn to_uint(&self) -> (r: Result<u64, TVMError>)
        ensures
            r == self@.spec_to_uint(),
    {
        extract_uint(&self.value, self.type_code)
    }

    /// Extracts the floating-point bit pattern behind the `Float` tag.
    pub fn to_float_bits(&self) -> (r: Result<u64, TVMError>)
        ensures
            r == self@.spec_to_float_bits(),
    {
        extract_float_bits(&self.value, self.type_code)
    }

    /// Extracts a copy of the string behind the `Str` tag.
    pub fn to_string(&self) -> (r: Result<String, TVMError>)
        ensures
            match r {
                Ok(s) => self@.spec_to_text() == Ok::<_, TVMError>(s@),
                Err(e) => self@.spec_to_text() == Err::<Seq<char>, _>(e),
            },
    {
        extract_text(&self.value, self.type_code)
    }

    /// Extracts a copy of the byte buffer behind the `Bytes` tag.
    pub fn to_bytes(&self) -> (r: Result<Vec<u8>, TVMError>)
        ensures
            match r {
                Ok(b) => self@.spec_to_bytes() == Ok::<_, TVMError>(b@),
                Err(e) => self@.spec_to_bytes() == Err::<Seq<u8>, _>(e),
            },
    {
        extract_bytes(&self.value, self.type_code)
    }

    /// Extracts the opaque reference behind any handle tag.
    pub fn to_handle(&self) -> (r: Result<u64, TVMError>)
        ensures
            r == self@.spec_to_handle(),
    {
        extract_handle(&self.value, self.type_code)
    }
}

/// A host type with a registered tagging rule: it names the tag its values
/// travel under and the payload a value becomes. A host type with no impl of
/// this trait has no registered mapping and cannot be tagged at all.
pub trait TVMTypable {
    /// The tag values of this type travel under.
    spec fn spec_type_tag() -> TypeTag;

    /// The payload a value of this type becomes.
    spec fn spec_payload(&self) -> PayloadView;

    /// Returns the tag values of this type travel under.
    fn type_tag(&self) -> (t: TypeTag)
        ensures
            t == Self::spec_type_tag(),
    ;

    /// Converts this value into its payload.
    fn payload(&self) -> (p: Payload)
        ensures
            p@ == self.spec_payload(),
    ;

    /// The payload of every value of this type is of the shape its tag
    /// announces.
    proof fn payload_matches(&self)
        ensures
            tag_matches(Self::spec_type_tag(), self.spec_payload()),
    ;
}

impl TVMTypable for i64 {
    open spec fn spec_type_tag() -> TypeTag {
        TypeTag::Int
    }

    open spec fn spec_payload(&self) -> PayloadView {
        PayloadView::Int(*self)
    }

    fn type_tag(&self) -> TypeTag {
        TypeTag::Int
    }

    fn payload(&self) -> Payload {
        Payload::Int(*self)
    }

    proof fn payload_matches(&self) {
    }
}

impl TVMTypable for i32 {
    open spec fn spec_type_tag() -> TypeTag {
        TypeTag::Int
    }

    open spec fn spec_payload(&self) -> PayloadView {
        PayloadView::Int(*self as i64)
    }

    fn type_tag(&self) -> TypeTag {
        TypeTag::Int
    }

    fn payload(&self) -> Payload {
        Payload::Int(*self as i64)
    }

    proof fn payload_matches(&self) {
    }
}

impl TVMTypable for u64 {
    open spec fn spec_type_tag() -> TypeTag {
        TypeTag::UInt
    }

    open spec fn spec_payload(&self) -> PayloadView {
        PayloadView::UInt(*self)
    }

    fn type_tag(&self) -> TypeTag {
        TypeTag::UInt
    }

    fn payload(&self) -> Payload {
        Payload::UInt(*self)
    }

    proof fn payload_matches(&self) {
    }
}

impl TVMTypable for u32 {
    open spec fn spec_type_tag() -> TypeTag {
        TypeTag::UInt
    }

    open spec fn spec_payload(&self) -> PayloadView {
        PayloadView::UInt(*self as u64)
    }

    fn type_tag(&self) -> TypeTag {
        TypeTag::UInt
    }

    fn payload(&self) -> Payload {
        Payload::UInt(*self as u64)
    }

    proof fn payload_matches(&self) {
    }
}

impl TVMTypable for usize {
    open spec fn spec_type_tag() -> TypeTag {
        TypeTag::UInt
    }

    open spec fn spec_payload(&self) -> PayloadView {
        PayloadView::UInt(*self as u64)
    }

    fn type_tag(&self) -> TypeTag {
        TypeTag::UInt
    }

    fn payload(&self) -> Payload {
        Payload::UInt(*self as u64)
    }

    proof fn payload_matches(&self) {
    }
}

impl TVMTypable for String {
    open spec fn spec_type_tag() -> TypeTag {
        TypeTag::Str
    }

    open spec fn spec_payload(&self) -> PayloadView {
        PayloadView::Text(self@)
    }

    fn type_tag(&self) -> TypeTag {
        TypeTag::Str
    }

    fn payload(&self) -> Payload {
        Payload::Text(self.clone())
    }

    proof fn payload_matches(&self) {
    }
}

impl TVMTypable for Vec<u8> {
    open spec fn spec_type_tag() -> TypeTag {
        TypeTag::Bytes
    }

    open spec fn spec_payload(&self) -> PayloadView {
        PayloadView::Buffer(self@)
    }

    fn type_tag(&self) -> TypeTag {
        TypeTag::Bytes
    }

    fn payload(&self) -> Payload {
        Payload::Buffer(copy_bytes(self))
    }

    proof fn payload_matches(&self) {
    }
}

/// The argument view a tagged host value becomes: its payload, at an argument
/// position, under the tag of its type.
pub open spec fn spec_arg_of<T: TVMTypable>(x: T) -> TaggedView {
    TaggedView {
        value: TVMValueView { kind: ValueKind::Argument, inner: x.spec_payload() },
        type_code: T::spec_type_tag(),
    }
}

/// The return view a tagged host value becomes: its payload, at a return
/// position, under the tag of its type.
pub open spec fn spec_ret_of<T: TVMTypable>(x: T) -> TaggedView {
    TaggedView {
        value: TVMValueView { kind: ValueKind::Return, inner: x.spec_payload() },
        type_code: T::spec_type_tag(),
    }
}

impl TVMArgValue {
    /// Tags a host value for an argument position.
    pub fn from<T: TVMTypable>(x: &T) -> (a: TVMArgValue)
        ensures
            a@ == spec_arg_of(*x),
            a.wf(),
    {
        proof {
            x.payload_matches();
        }
        TVMArgValue::new(TVMValue::new(ValueKind::Argument, x.payload()), x.type_tag())
    }
}

impl TVMRetValue {
    /// Tags a host value for a return position.
    pub fn from<T: TVMTypable>(x: &T) -> (r: TVMRetValue)
        ensures
            r@ == spec_ret_of(*x),
            r.wf(),
    {
        proof {
            x.payload_matches();
        }
        TVMRetValue::new(TVMValue::new(ValueKind::Return, x.payload()), x.type_tag())
    }

    /// Tags a floating-point bit pattern for a return position. The caller
    /// reinterprets the bits as a number on its own side of the boundary.
    pub fn from_float_bits(bits: u64) -> (r: TVMRetValue)
        ensures
            r@ == (TaggedView {
                value: TVMValueView { kind: ValueKind::Return, inner: PayloadView::FloatBits(bits) },
                type_code: TypeTag::Float,
            }),
            r.wf(),
    {
        TVMRetValue::new(TVMValue::new(ValueKind::Return, Payload::FloatBits(bits)), TypeTag::Float)
    }

    /// Tags an opaque reference for a return position, under the given handle
    /// tag.
    pub fn from_handle(handle: u64, tag: TypeTag) -> (r: Result<TVMRetValue, TVMError>)
        ensures
            match r {
                Ok(v) => is_handle_tag(tag) && v@ == (TaggedView {
                    value: TVMValueView {
                        kind: ValueKind::Return,
                        inner: PayloadView::Handle(handle),
                    },
                    type_code: tag,
                }) && v.wf(),
                Err(e) => !is_handle_tag(tag) && e == TVMError::UnsupportedType,
            },
    {
        let handle_tag = match tag {
            TypeTag::Handle => true,
            TypeTag::ArrayHandle => true,
            TypeTag::NodeHandle => true,
            TypeTag::ModuleHandle => true,
            TypeTag::FuncHandle => true,
            _ => false,
        };
        if handle_tag {
            Ok(TVMRetValue::new(TVMValue::new(ValueKind::Return, Payload::Handle(handle)), tag))
        } else {
            Err(TVMError::UnsupportedType)
        }
    }
}

impl TVMArgValue {
    /// Tags a floating-point bit pattern for an argument position. The caller
    /// reinterprets the bits as a number on its own side of the boundary.
    pub fn from_float_bits(bits: u64) -> (a: TVMArgValue)
        ensures
            a@ == (TaggedView {
                value: TVMValueView {
                    kind: ValueKind::Argument,
                    inner: PayloadView::FloatBits(bits),
                },
                type_code: TypeTag::Float,
            }),
            a.wf(),
    {
        TVMArgValue::new(
            TVMValue::new(ValueKind::Argument, Payload::FloatBits(bits)),
            TypeTag::Float,
        )
    }
}

/// Round trip for signed integers: tagging a value and reading it back under
/// the same tag gives the value, for every representable value.
pub proof fn lemma_int_round_trip(v: i64)
    ensures
        spec_arg_of(v).spec_to_int() == Ok::<i64, TVMError>(v),
        spec_ret_of(v).spec_to_int() == Ok::<i64, TVMError>(v),
{
}

/// Round trip for unsigned integers.
pub proof fn lemma_uint_round_trip(v: u64)
    ensures
        spec_arg_of(v).spec_to_uint() == Ok::<u64, TVMError>(v),
        spec_ret_of(v).spec_to_uint() == Ok::<u64, TVMError>(v),
{
}

/// Round trip for floating-point bit patterns: the bits cross the boundary
/// unchanged in both directions.
pub proof fn lemma_float_bits_round_trip(bits: u64)
    ensures
        (TaggedView {
            value: TVMValueView { kind: ValueKind::Argument, inner: PayloadView::FloatBits(bits) },
            type_code: TypeTag::Float,
        }).spec_to_float_bits() == Ok::<u64, TVMError>(bits),
        (TaggedView {
            value: TVMValueView { kind: ValueKind::Return, inner: PayloadView::FloatBits(bits) },
            type_code: TypeTag::Float,
        }).spec_to_float_bits() == Ok::<u64, TVMError>(bits),
{
}

/// Round trip for strings.
pub proof fn lemma_text_round_trip(s: String)
    ensures
        spec_arg_of(s).spec_to_text() == Ok::<Seq<char>, TVMError>(s@),
        spec_ret_of(s).spec_to_text() == Ok::<Seq<char>, TVMError>(s@),
{
}

/// Round trip for byte buffers.
pub proof fn lemma_bytes_round_trip(b: Vec<u8>)
    ensures
        spec_arg_of(b).spec_to_bytes() == Ok::<Seq<u8>, TVMError>(b@),
        spec_ret_of(b).spec_to_bytes() == Ok::<Seq<u8>, TVMError>(b@),
{
}

/// Round trip for opaque handles, under every handle tag.
pub proof fn lemma_handle_round_trip(h: u64, tag: TypeTag)
    requires
        is_handle_tag(tag),
    ensures
        (TaggedView {
            value: TVMValueView { kind: ValueKind::Return, inner: PayloadView::Handle(h) },
            type_code: tag,
        }).spec_to_handle() == Ok::<u64, TVMError>(h),
{
}

} // verus!
