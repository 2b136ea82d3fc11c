//! The kernel argument resolver: turns an ordered list of dynamically-typed
//! script values into a concrete kernel invocation, in strict left-to-right
//! order, with two implicit trailing frame-size arguments.
//!
//! Each value is interpreted under a fixed priority: a numeric scalar binds
//! directly at its exact width; a scalar-buffer reference resolves by name to
//! an `IntBuffer` or `FloatBuffer`; an image reference resolves by name to a
//! `FixedImage` (binding the array plus its width and height, three kernel
//! parameters for one script argument) or a `DynImage` (binding only the
//! array). A reference to a name never created, or to an entry of the wrong
//! kind, fails fatally naming the missing buffer.

use vstd::prelude::*;

use crate::errors::CError;
use crate::refs::{BufferRhaiRef, ImageRhaiRef};
use crate::registry::{spec_lookup, Buff, CScope, Entry};

verus! {

/// A dynamically-typed script value, as handed to `call_kernel`: one of the
/// supported numeric scalar widths (floats carried as their raw bit
/// patterns), or a scripting-visible reference.
#[derive(Debug, Clone, PartialEq, Eq)]
pub enum ScriptValue {
    I8(i8),
    U8(u8),
    I16(i16),
    U16(u16),
    I32(i32),
    U32(u32),
    I64(i64),
    U64(u64),
    F32Bits(u32),
    F64Bits(u64),
    ISize(isize),
    USize(usize),
    BufferRef(BufferRhaiRef),
    ImageRef(ImageRhaiRef),
}

/// One concrete kernel argument: a scalar bound at its exact width (floats as
/// raw bit patterns), or a device buffer binding carrying the registry name
/// it was resolved from and the allocation identity of the underlying device
/// array.
#[derive(Debug, Clone, PartialEq, Eq)]
pub enum KernelArg {
    I8(i8),
    U8(u8),
    I16(i16),
    U16(u16),
    I32(i32),
    U32(u32),
    I64(i64),
    U64(u64),
    F32Bits(u32),
    F64Bits(u64),
    ISize(isize),
    USize(usize),
    IntBuf { name: String, id: u64 },
    FloatBuf { name: String, id: u64 },
    ImgBuf { name: String, id: u64 },
}

/// A fully resolved kernel invocation, ready to be enqueued on the device.
#[derive(Debug, Clone, PartialEq, Eq)]
pub struct KernelCall {
    /// Kernel name inside the compiled device program.
    pub name: String,
    /// Kernel arguments, in binding order, trailing frame size included.
    pub args: Vec<KernelArg>,
}

/// The kernel arguments one script value contributes, resolved against the
/// given registry entries: scalars bind themselves; a buffer reference binds
/// the named scalar array; an image reference binds the named image array,
/// followed by its fixed width and height when the entry is a fixed image.
pub open spec fn resolve_value(entries: Seq<Entry>, v: ScriptValue) -> Result<
    Seq<KernelArg>,
    CError,
> {
    match v {
        ScriptValue::I8(x) => Ok(seq![KernelArg::I8(x)]),
        ScriptValue::U8(x) => Ok(seq![KernelArg::U8(x)]),
        ScriptValue::I16(x) => Ok(seq![KernelArg::I16(x)]),
        ScriptValue::U16(x) => Ok(seq![KernelArg::U16(x)]),
        ScriptValue::I32(x) => Ok(seq![KernelArg::I32(x)]),
        ScriptValue::U32(x) => Ok(seq![KernelArg::U32(x)]),
        ScriptValue::I64(x) => Ok(seq![KernelArg::I64(x)]),
        ScriptValue::U64(x) => Ok(seq![KernelArg::U64(x)]),
        ScriptValue::F32Bits(x) => Ok(seq![KernelArg::F32Bits(x)]),
        ScriptValue::F64Bits(x) => Ok(seq![KernelArg::F64Bits(x)]),
        ScriptValue::ISize(x) => Ok(seq![KernelArg::ISize(x)]),
        ScriptValue::USize(x) => Ok(seq![KernelArg::USize(x)]),
        ScriptValue::BufferRef(r) => match spec_lookup(entries, r.name@) {
            Some(Buff::IntBuffer { id, .. }) => Ok(seq![KernelArg::IntBuf { name: r.name, id }]),
            Some(Buff::FloatBuffer { id, .. }) => Ok(
                seq![KernelArg::FloatBuf { name: r.name, id }],
            ),
            _ => Err(CError::NoBuffer(r.name)),
        },
        ScriptValue::ImageRef(r) => match spec_lookup(entries, r.name@) {
            Some(Buff::Image { id, width, height, .. }) => Ok(
                seq![
                    KernelArg::ImgBuf { name: r.name, id },
                    KernelArg::USize(width),
                    KernelArg::USize(height),
                ],
            ),
            Some(Buff::DynImage { id, .. }) => Ok(seq![KernelArg::ImgBuf { name: r.name, id }]),
            _ => Err(CError::NoImage(r.name)),
        },
    }
}

/// Left-to-right resolution of a whole argument list: the concatenation of
/// each value's contribution, or the error of the leftmost failing value.
pub open spec fn resolve_args(entries: Seq<Entry>, vs: Seq<ScriptValue>) -> Result<
    Seq<KernelArg>,
    CError,
>
    decreases vs.len(),
{
    if vs.len() == 0 {
        Ok(Seq::empty())
    } else {
        match resolve_value(entries, vs[0]) {
            Err(e) => Err(e),
            Ok(a) => match resolve_args(entries, vs.skip(1)) {
                Err(e) => Err(e),
                Ok(rest) => Ok(a + rest),
            },
        }
    }
}

/// The full argument sequence of a kernel invocation: every script value's
/// contribution in order, then the registry's current frame width and height
/// as unsigned 32-bit scalars.
pub open spec fn spec_call_args(s: CScope, vs: Seq<ScriptValue>) -> Result<Seq<KernelArg>, CError> {
    match resolve_args(s.entries@, vs) {
        Ok(a) => Ok(a + seq![KernelArg::U32(s.width as u32), KernelArg::U32(s.height as u32)]),
        Err(e) => Err(e),
    }
}

/// Resolving a list extended by one value appends that value's contribution,
/// or fails with its error once the prefix succeeded.
pub proof fn lemma_resolve_args_snoc(entries: Seq<Entry>, s: Seq<ScriptValue>, x: ScriptValue)
    ensures
        resolve_args(entries, s.push(x)) == (match resolve_args(entries, s) {
            Ok(a) => match resolve_value(entries, x) {
                Ok(b) => Ok::<Seq<KernelArg>, CError>(a + b),
                Err(e) => Err::<Seq<KernelArg>, CError>(e),
            },
            Err(e) => Err::<Seq<KernelArg>, CError>(e),
        }),
    decreases s.len(),
{
    let p = s.push(x);
    if s.len() == 0 {
        assert(p[0] == x);
        assert(p.skip(1) =~= Seq::<ScriptValue>::empty());
        match resolve_value(entries, x) {
            Ok(b) => {
                assert(Seq::<KernelArg>::empty() + b =~= b);
                assert(b + Seq::<KernelArg>::empty() =~= b);
            },
            Err(e) => {},
        }
    } else {
        assert(p[0] == s[0]);
        assert(p.skip(1) =~= s.skip(1).push(x));
        lemma_resolve_args_snoc(entries, s.skip(1), x);
        match resolve_value(entries, s[0]) {
            Ok(a0) => {
                match resolve_args(entries, s.skip(1)) {
                    Ok(arest) => {
                        match resolve_value(entries, x) {
                            Ok(b) => {
                                assert(a0 + (arest + b) =~= (a0 + arest) + b);
                            },
                            Err(e) => {},
                        }
                    },
                    Err(e) => {},
                }
            },
            Err(e) => {},
        }
    }
}

/// When every value before position `i` resolves and the value at `i` fails,
/// the whole list fails with exactly that error.
pub proof fn lemma_resolve_args_prefix_err(entries: Seq<Entry>, vs: Seq<ScriptValue>, i: int)
    requires
        0 <= i < vs.len(),
        resolve_args(entries, vs.take(i)) is Ok,
        resolve_value(entries, vs[i]) is Err,
    ensures
        (resolve_value(entries, vs[i]) matches Err(e) && resolve_args(entries, vs) == Err::<
            Seq<KernelArg>,
            CError,
        >(e)),
    decreases i,
{
    if i == 0 {
    } else {
        assert(vs.take(i)[0] == vs[0]);
        assert(vs.take(i).skip(1) =~= vs.skip(1).take(i - 1));
        assert(vs.skip(1)[i - 1] == vs[i]);
        lemma_resolve_args_prefix_err(entries, vs.skip(1), i - 1);
    }
}

impl CScope {
    /// Resolves one script value against the registry, appending its kernel
    /// arguments to `out`; on failure `out` is left untouched.
    fn resolve_one(&self, v: &ScriptValue, out: &mut Vec<KernelArg>) -> (r: Result<(), CError>)
        ensures
            r is Ok ==> (resolve_value(self.entries@, *v) matches Ok(a) && final(out)@ == old(
                out,
            )@ + a),
            r matches Err(e) ==> resolve_value(self.entries@, *v) == Err::<Seq<KernelArg>, CError>(
                e,
            ) && final(out)@ == old(out)@,
    {
        match v {
            ScriptValue::I8(x) => {
                out.push(KernelArg::I8(*x));
                proof {
                    assert(out@ =~= old(out)@ + seq![KernelArg::I8(*x)]);
                }
                Ok(())
            },
            ScriptValue::U8(x) => {
                out.push(KernelArg::U8(*x));
                proof {
                    assert(out@ =~= old(out)@ + seq![KernelArg::U8(*x)]);
                }
                Ok(())
            },
            ScriptValue::I16(x) => {
                out.push(KernelArg::I16(*x));
                proof {
                    assert(out@ =~= old(out)@ + seq![KernelArg::I16(*x)]);
                }
                Ok(())
            },
            ScriptValue::U16(x) => {
                out.push(KernelArg::U16(*x));
                proof {
                    assert(out@ =~= old(out)@ + seq![KernelArg::U16(*x)]);
                }
                Ok(())
            },
            ScriptValue::I32(x) => {
                out.push(KernelArg::I32(*x));
                proof {
                    assert(out@ =~= old(out)@ + seq![KernelArg::I32(*x)]);
                }
                Ok(())
            },
            ScriptValue::U32(x) => {
                out.push(KernelArg::U32(*x));
                proof {
                    assert(out@ =~= old(out)@ + seq![KernelArg::U32(*x)]);
                }
                Ok(())
            },
            ScriptValue::I64(x) => {
                out.push(KernelArg::I64(*x));
                proof {
                    assert(out@ =~= old(out)@ + seq![KernelArg::I64(*x)]);
                }
                Ok(())
            },
            ScriptValue::U64(x) => {
                out.push(KernelArg::U64(*x));
                proof {
                    assert(out@ =~= old(out)@ + seq![KernelArg::U64(*x)]);
                }
                Ok(())
            },
            ScriptValue::F32Bits(x) => {
                out.push(KernelArg::F32Bits(*x));
                proof {
                    assert(out@ =~= old(out)@ + seq![KernelArg::F32Bits(*x)]);
                }
                Ok(())
            },
            ScriptValue::F64Bits(x) => {
                out.push(KernelArg::F64Bits(*x));
                proof {
                    assert(out@ =~= old(out)@ + seq![KernelArg::F64Bits(*x)]);
                }
                Ok(())
            },
            ScriptValue::ISize(x) => {
                out.push(KernelArg::ISize(*x));
                proof {
                    assert(out@ =~= old(out)@ + seq![KernelArg::ISize(*x)]);
                }
                Ok(())
            },
            ScriptValue::USize(x) => {
                out.push(KernelArg::USize(*x));
                proof {
                    assert(out@ =~= old(out)@ + seq![KernelArg::USize(*x)]);
                }
                Ok(())
            },
            ScriptValue::BufferRef(r) => {
                match self.lookup(r.name.as_str()) {
                    Some(b) => match b {
                        Buff::IntBuffer { id, .. } => {
                            let arg = KernelArg::IntBuf { name: r.name.clone(), id: *id };
                            out.push(arg);
                            proof {
                                assert(out@ =~= old(out)@ + seq![
                                    KernelArg::IntBuf { name: r.name, id: *id },
                                ]);
                            }
                            Ok(())
                        },
                        Buff::FloatBuffer { id, .. } => {
                            let arg = KernelArg::FloatBuf { name: r.name.clone(), id: *id };
                            out.push(arg);
                            proof {
                                assert(out@ =~= old(out)@ + seq![
                                    KernelArg::FloatBuf { name: r.name, id: *id },
                                ]);
                            }
                            Ok(())
                        },
                        _ => Err(CError::NoBuffer(r.name.clone())),
                    },
                    None => Err(CError::NoBuffer(r.name.clone())),
                }
            },
            ScriptValue::ImageRef(r) => {
                match self.lookup(r.name.as_str()) {
                    Some(b) => match b {
                        Buff::Image { id, width, height, .. } => {
                            let arg = KernelArg::ImgBuf { name: r.name.clone(), id: *id };
                            let w = *width;
                            let h = *height;
                            out.push(arg);
                            out.push(KernelArg::USize(w));
                            out.push(KernelArg::USize(h));
                            proof {
                                assert(out@ =~= old(out)@ + seq![
                                    KernelArg::ImgBuf { name: r.name, id: *id },
                                    KernelArg::USize(w),
                                    KernelArg::USize(h),
                                ]);
                            }
                            Ok(())
                        },
                        Buff::DynImage { id, .. } => {
                            let arg = KernelArg::ImgBuf { name: r.name.clone(), id: *id };
                            out.push(arg);
                            proof {
                                assert(out@ =~= old(out)@ + seq![
                                    KernelArg::ImgBuf { name: r.name, id: *id },
                                ]);
                            }
                            Ok(())
                        },
                        _ => Err(CError::NoImage(r.name.clone())),
                    },
                    None => Err(CError::NoImage(r.name.clone())),
                }
            },
        }
    }

    /// Builds the kernel invocation named `name` from the given script
    /// values: every value's kernel arguments in strict left-to-right order,
    /// then the current frame width and height as unsigned 32-bit scalars.
    /// Fails, mutating nothing, exactly when the leftmost unresolvable value
    /// fails, naming the missing or mismatched buffer.
    pub fn call_kernel(&self, name: String, args: Vec<ScriptValue>) -> (r: Result<
        KernelCall,
        CError,
    >)
        ensures
            r matches Ok(kc) ==> kc.name == name && spec_call_args(*self, args@) == Ok::<
                Seq<KernelArg>,
                CError,
            >(kc.args@),
            r matches Err(e) ==> spec_call_args(*self, args@) == Err::<Seq<KernelArg>, CError>(e),
    {
        let mut out: Vec<KernelArg> = Vec::new();
        let mut i: usize = 0;
        while i < args.len()
            invariant
                i <= args@.len(),
                resolve_args(self.entries@, args@.take(i as int)) == Ok::<Seq<KernelArg>, CError>(
                    out@,
                ),
            decreases args@.len() - i,
        {
            match self.resolve_one(&args[i], &mut out) {
                Ok(u) => {
                    proof {
                        assert(args@.take(i + 1) =~= args@.take(i as int).push(args@[i as int]));
                        lemma_resolve_args_snoc(self.entries@, args@.take(i as int), args@[i as int]);
                    }
                },
                Err(e) => {
                    proof {
                        lemma_resolve_args_prefix_err(self.entries@, args@, i as int);
                    }
                    return Err(e);
                },
            }
            i += 1;
        }
        proof {
            assert(args@.take(args@.len() as int) =~= args@);
        }
        out.push(KernelArg::U32(self.width as u32));
        out.push(KernelArg::U32(self.height as u32));
        proof {
            assert(out@ =~= args_of(resolve_args(self.entries@, args@)) + seq![
                KernelArg::U32(self.width as u32),
                KernelArg::U32(self.height as u32),
            ]);
        }
        Ok(KernelCall { name, args: out })
    }
}

/// The argument sequence of a successful resolution (empty on failure).
pub open spec fn args_of(r: Result<Seq<KernelArg>, CError>) -> Seq<KernelArg> {
    match r {
        Ok(a) => a,
        Err(_) => Seq::empty(),
    }
}

} // verus!
