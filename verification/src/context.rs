//! Device types and device contexts: the plain data the calling convention
//! carries to name where work runs.
//!
//! A device type is its numeric device code; a context pairs a device type
//! with a device id. Device attribute queries and stream synchronization are
//! native pass-through operations with no logic of their own and live outside
//! this layer, reached through the same invocation protocol.

use vstd::prelude::*;

use crate::function::{get_global_func, Builder};
use crate::runtime::{nul_free, spec_resolves, Runtime};
use crate::ty::TypeTag;
use crate::value::{PayloadView, TVMArgValue, TVMRetValue, TVMValueView, TaggedView, ValueKind};
use crate::TVMError;

verus! {

/// Compares two string slices by their characters.
fn str_eq(a: &str, b: &str) -> (r: bool)
    ensures
        r == (a@ == b@),
{
    let a_owned = a.to_owned();
    let b_owned = b.to_owned();
    a_owned == b_owned
}

/// The decimal digit character of one digit value.
pub open spec fn spec_digit(d: nat) -> char {
    if d == 0 {
        '0'
    } else if d == 1 {
        '1'
    } else if d == 2 {
        '2'
    } else if d == 3 {
        '3'
    } else if d == 4 {
        '4'
    } else if d == 5 {
        '5'
    } else if d == 6 {
        '6'
    } else if d == 7 {
        '7'
    } else if d == 8 {
        '8'
    } else {
        '9'
    }
}

/// The decimal rendering of a number, most significant digit first.
pub open spec fn spec_decimal(n: nat) -> Seq<char>
    decreases n,
{
    if n < 10 {
        seq![spec_digit(n)]
    } else {
        spec_decimal(n / 10).push(spec_digit(n % 10))
    }
}

/// Renders one digit value.
fn digit_str(d: usize) -> (s: &'static str)
    requires
        d < 10,
    ensures
        s@ == seq![spec_digit(d as nat)],
{
    proof {
        reveal_strlit("0");
        reveal_strlit("1");
        reveal_strlit("2");
        reveal_strlit("3");
        reveal_strlit("4");
        reveal_strlit("5");
        reveal_strlit("6");
        reveal_strlit("7");
        reveal_strlit("8");
        reveal_strlit("9");
    }
    let s = if d == 0 {
        "0"
    } else if d == 1 {
        "1"
    } else if d == 2 {
        "2"
    } else if d == 3 {
        "3"
    } else if d == 4 {
        "4"
    } else if d == 5 {
        "5"
    } else if d == 6 {
        "6"
    } else if d == 7 {
        "7"
    } else if d == 8 {
        "8"
    } else {
        "9"
    };
    proof {
        assert(s@ =~= seq![spec_digit(d as nat)]);
    }
    s
}

/// Renders a number in decimal.
fn usize_to_string(n: usize) -> (s: String)
    ensures
        s@ == spec_decimal(n as nat),
    decreases n,
{
    if n < 10 {
        String::from_str(digit_str(n))
    } else {
        usize_to_string(n / 10).concat(digit_str(n % 10))
    }
}

/// A device type, as its numeric device code.
#[derive(Debug, Clone, Copy, PartialEq, Eq, Structural, Hash)]
pub struct TVMDeviceType(pub usize);

/// Whether a device code is one the convention knows.
pub open spec fn spec_supported_device(code: usize) -> bool {
    code == 1 || code == 2 || code == 3 || code == 4 || code == 7 || code == 8 || code == 9 || code
        == 10 || code == 12
}

/// The device code a device name stands for, if any.
pub open spec fn spec_device_type_of(s: Seq<char>) -> Option<usize> {
    if s == "cpu"@ || s == "llvm"@ || s == "stackvm"@ {
        Some(1)
    } else if s == "gpu"@ || s == "cuda"@ || s == "nvptx"@ {
        Some(2)
    } else if s == "cl"@ || s == "opencl"@ {
        Some(4)
    } else if s == "metal"@ {
        Some(8)
    } else if s == "vpi"@ {
        Some(9)
    } else if s == "rocm"@ {
        Some(10)
    } else {
        None
    }
}

/// The display name of a device type.
pub open spec fn spec_device_name(code: usize) -> Seq<char> {
    if code == 1 {
        "cpu"@
    } else if code == 2 {
        "gpu"@
    } else if code == 3 {
        "cpu_pinned"@
    } else if code == 4 {
        "opencl"@
    } else if code == 8 {
        "meta"@
    } else if code == 9 {
        "vpi"@
    } else if code == 10 {
        "rocm"@
    } else {
        "rpc"@
    }
}

impl TVMDeviceType {
    /// Wraps a numeric device code.
    pub fn new(code: usize) -> (d: TVMDeviceType)
        ensures
            d == (TVMDeviceType(code)),
    {
        TVMDeviceType(code)
    }

    /// The device type a supported device name stands for.
    pub fn from(type_str: &str) -> (d: TVMDeviceType)
        requires
            spec_device_type_of(type_str@) is Some,
        ensures
            Some(d.0) == spec_device_type_of(type_str@),
    {
        if str_eq(type_str, "cpu") || str_eq(type_str, "llvm") || str_eq(type_str, "stackvm") {
            TVMDeviceType(1)
        } else if str_eq(type_str, "gpu") || str_eq(type_str, "cuda") || str_eq(
            type_str,
            "nvptx",
        ) {
            TVMDeviceType(2)
        } else if str_eq(type_str, "cl") || str_eq(type_str, "opencl") {
            TVMDeviceType(4)
        } else if str_eq(type_str, "metal") {
            TVMDeviceType(8)
        } else if str_eq(type_str, "vpi") {
            TVMDeviceType(9)
        } else if str_eq(type_str, "rocm") {
            TVMDeviceType(10)
        } else {
            vstd::pervasive::unreached()
        }
    }

    /// The numeric encoding a supported device type travels under on the
    /// wire: the device code itself.
    pub fn device_code(&self) -> (c: u32)
        requires
            spec_supported_device(self.0),
        ensures
            c == self.0,
    {
        match self.0 {
            1 => 1,
            2 => 2,
            3 => 3,
            4 => 4,
            7 => 7,
            8 => 8,
            9 => 9,
            10 => 10,
            _ => 12,
        }
    }

    /// The device type a supported wire code stands for.
    pub fn from_device_code(c: u32) -> (d: TVMDeviceType)
        requires
            spec_supported_device(c as usize),
        ensures
            d.0 == c as usize,
    {
        match c {
            1 => TVMDeviceType(1),
            2 => TVMDeviceType(2),
            3 => TVMDeviceType(3),
            4 => TVMDeviceType(4),
            7 => TVMDeviceType(7),
            8 => TVMDeviceType(8),
            9 => TVMDeviceType(9),
            10 => TVMDeviceType(10),
            _ => TVMDeviceType(12),
        }
    }

    /// Renders the display name of this device type.
    pub fn name(&self) -> (s: &'static str)
        ensures
            s@ == spec_device_name(self.0),
    {
        match self.0 {
            1 => "cpu",
            2 => "gpu",
            3 => "cpu_pinned",
            4 => "opencl",
            8 => "meta",
            9 => "vpi",
            10 => "rocm",
            _ => "rpc",
        }
    }
}

impl Default for TVMDeviceType {
    /// The default device is the cpu.
    fn default() -> (d: TVMDeviceType)
        ensures
            d == (TVMDeviceType(1)),
    {
        TVMDeviceType(1)
    }
}

/// A device context: a device type paired with a device id.
#[derive(Debug, Clone, PartialEq, Eq, Structural, Hash)]
pub struct TVMContext {
    /// The device type.
    pub device_type: TVMDeviceType,
    /// The device id.
    pub device_id: usize,
}

impl TVMContext {
    /// Creates a context from a device type and id.
    pub fn new(device_type: TVMDeviceType, device_id: usize) -> (c: TVMContext)
        ensures
            c == (TVMContext { device_type, device_id }),
    {
        TVMContext { device_type, device_id }
    }

    /// The context for a supported device name, on device id `0`.
    pub fn from(target: &str) -> (c: TVMContext)
        requires
            spec_device_type_of(target@) is Some,
        ensures
            Some(c.device_type.0) == spec_device_type_of(target@),
            c.device_id == 0,
    {
        TVMContext::new(TVMDeviceType::from(target), 0)
    }

    /// The context this value denotes.
    pub fn current_context(&self) -> (c: &TVMContext)
        ensures
            c == self,
    {
        self
    }

    /// Renders this context as its device name and id.
    pub fn describe(&self) -> (s: String)
        ensures
            s@ == spec_device_name(self.device_type.0) + "("@ + spec_decimal(self.device_id as nat)
                + ")"@,
    {
        String::from_str(self.device_type.name()).concat("(").concat(
            usize_to_string(self.device_id).as_str(),
        ).concat(")")
    }

    /// The argument views the device attribute query's trampoline receives:
    /// the device code, the device id, and the queried attribute kind, as
    /// unsigned integers.
    pub open spec fn spec_attr_args(&self, kind: u64) -> Seq<TaggedView> {
        seq![
            TaggedView {
                value: TVMValueView {
                    kind: ValueKind::Handle,
                    inner: PayloadView::UInt(self.device_type.0 as u64),
                },
                type_code: TypeTag::UInt,
            },
            TaggedView {
                value: TVMValueView {
                    kind: ValueKind::Handle,
                    inner: PayloadView::UInt(self.device_id as u64),
                },
                type_code: TypeTag::UInt,
            },
            TaggedView {
                value: TVMValueView { kind: ValueKind::Handle, inner: PayloadView::UInt(kind) },
                type_code: TypeTag::UInt,
            },
        ]
    }

    /// Asks the native side whether this context's device exists: the device
    /// attribute query is resolved by its conventional name and invoked with
    /// the device code, the device id and the existence attribute kind; a
    /// non-zero integer answer means the device is there. `query` supplies
    /// the native query's code, bound type-erased behind the resolved
    /// handle.
    pub fn exist<F: Fn(Vec<TVMArgValue>) -> Result<TVMRetValue, TVMError>>(
        &self,
        rt: &mut Runtime,
        query: F,
    ) -> (r: Result<bool, TVMError>)
        requires
            forall|v: Vec<TVMArgValue>|
                v@.map(|i: int, a: TVMArgValue| a@) == self.spec_attr_args(0) ==> call_requires(
                    query,
                    (v,),
                ),
        ensures
            final(rt).same_except_dispatch(old(rt)),
            match spec_resolves(old(rt).registry@, "_GetDeviceAttr"@) {
                None => r matches Err(e) && e == TVMError::FunctionNotFound && *final(rt) == *old(
                    rt,
                ),
                Some(_) => exists|v: Vec<TVMArgValue>, r0: Result<TVMRetValue, TVMError>|
                    {
                        &&& v@.map(|i: int, a: TVMArgValue| a@) == self.spec_attr_args(0)
                        &&& #[trigger] call_ensures(query, (v,), r0)
                        &&& match r0 {
                            Ok(rv) => if rv.wf() {
                                if rv@.type_code == TypeTag::Int {
                                    r matches Ok(b) && Some(b) == (match rv@.value.inner {
                                        PayloadView::Int(n) => Some(n != 0),
                                        _ => None,
                                    })
                                } else {
                                    r is Err
                                }
                            } else {
                                r is Err
                            },
                            Err(e0) => r matches Err(e) && (e matches TVMError::NativeCallFailed {
                                message,
                            } && message@ == e0.spec_message()),
                        }
                    },
            },
    {
        proof {
            reveal_strlit("_GetDeviceAttr");
            assert(nul_free("_GetDeviceAttr"@));
        }
        let func = match get_global_func("_GetDeviceAttr", true, rt) {
            Some(f) => f,
            None => {
                return Err(TVMError::FunctionNotFound);
            },
        };
        let dt: usize = self.device_type.0;
        let exists_kind: usize = 0;
        let mut builder = Builder::from(func);
        builder.arg(&dt);
        builder.arg(&self.device_id);
        builder.arg(&exists_kind);
        proof {
            assert(builder.wf());
            assert(builder.spec_arg_views().len() == 3);
            assert(builder.spec_arg_views()[0] == crate::value::spec_arg_of(dt));
            assert(builder.spec_arg_views()[1] == crate::value::spec_arg_of(self.device_id));
            assert(builder.spec_arg_views()[2] == crate::value::spec_arg_of(exists_kind));
            assert(builder.spec_callback_views() =~= self.spec_attr_args(0));
        }
        let ret = match builder.invoke(rt, query) {
            Ok(rv) => rv,
            Err(e) => {
                return Err(e);
            },
        };
        match ret.to_int() {
            Ok(n) => Ok(n != 0),
            Err(e) => Err(e),
        }
    }

    /// Waits until the native side has drained this context's work stream.
    /// The wait itself happens on the native side and leaves no trace in the
    /// modelled state; the call reports success.
    pub fn sync(&self) -> (r: Result<(), TVMError>)
        ensures
            r == Ok::<(), TVMError>(()),
    {
        Ok(())
    }

    /// A cpu context.
    pub fn cpu(device_id: usize) -> (c: TVMContext)
        ensures
            c == (TVMContext { device_type: TVMDeviceType(1), device_id }),
    {
        TVMContext::new(TVMDeviceType(1), device_id)
    }

    /// A gpu context.
    pub fn gpu(device_id: usize) -> (c: TVMContext)
        ensures
            c == (TVMContext { device_type: TVMDeviceType(2), device_id }),
    {
        TVMContext::new(TVMDeviceType(2), device_id)
    }

    /// A gpu context under its nvptx target name.
    pub fn nvptx(device_id: usize) -> (c: TVMContext)
        ensures
            c == (TVMContext { device_type: TVMDeviceType(2), device_id }),
    {
        TVMContext::new(TVMDeviceType(2), device_id)
    }

    /// A gpu context under its cuda target name.
    pub fn cuda(device_id: usize) -> (c: TVMContext)
        ensures
            c == (TVMContext { device_type: TVMDeviceType(2), device_id }),
    {
        TVMContext::new(TVMDeviceType(2), device_id)
    }

    /// A pinned-memory cpu context.
    pub fn cpu_pinned(device_id: usize) -> (c: TVMContext)
        ensures
            c == (TVMContext { device_type: TVMDeviceType(3), device_id }),
    {
        TVMContext::new(TVMDeviceType(3), device_id)
    }

    /// An opencl context under its short target name.
    pub fn cl(device_id: usize) -> (c: TVMContext)
        ensures
            c == (TVMContext { device_type: TVMDeviceType(4), device_id }),
    {
        TVMContext::new(TVMDeviceType(4), device_id)
    }

    /// An opencl context.
    pub fn opencl(device_id: usize) -> (c: TVMContext)
        ensures
            c == (TVMContext { device_type: TVMDeviceType(4), device_id }),
    {
        TVMContext::new(TVMDeviceType(4), device_id)
    }

    /// A metal context.
    pub fn metal(device_id: usize) -> (c: TVMContext)
        ensures
            c == (TVMContext { device_type: TVMDeviceType(8), device_id }),
    {
        TVMContext::new(TVMDeviceType(8), device_id)
    }

    /// A vpi context.
    pub fn vpi(device_id: usize) -> (c: TVMContext)
        ensures
            c == (TVMContext { device_type: TVMDeviceType(9), device_id }),
    {
        TVMContext::new(TVMDeviceType(9), device_id)
    }

    /// A rocm context.
    pub fn rocm(device_id: usize) -> (c: TVMContext)
        ensures
            c == (TVMContext { device_type: TVMDeviceType(10), device_id }),
    {
        TVMContext::new(TVMDeviceType(10), device_id)
    }
}

impl Default for TVMContext {
    /// The default context is the cpu, device id `0`.
    fn default() -> (c: TVMContext)
        ensures
            c == (TVMContext { device_type: TVMDeviceType(1), device_id: 0 }),
    {
        TVMContext { device_type: TVMDeviceType(1), device_id: 0 }
    }
}

} // verus!
