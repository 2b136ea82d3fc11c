//! Scenario tests for the kernel argument resolver.

use oclpipe::errors::CError;
use oclpipe::kernel::{KernelArg, ScriptValue};
use oclpipe::refs::{BufferRhaiRef, ImageRhaiRef};
use oclpipe::registry::{Buff, CScope};

fn buf_ref(name: &str, size: usize) -> ScriptValue {
    ScriptValue::BufferRef(BufferRhaiRef { name: name.to_string(), size })
}

fn img_ref(name: &str, width: usize, height: usize) -> ScriptValue {
    ScriptValue::ImageRef(ImageRhaiRef { name: name.to_string(), width, height })
}

#[test]
fn argument_order_preserved() {
    let mut s = CScope::init(6, 7);
    let a = s.create_int_buffer("a".to_string(), vec![1, 2]).unwrap();
    s.create_image("pic".to_string(), 8, 9).unwrap();
    let args = vec![
        ScriptValue::I64(-5),
        buf_ref("a", a.len()),
        img_ref("pic", 8, 9),
        ScriptValue::F64Bits(2.5f64.to_bits()),
    ];
    let kc = s.call_kernel("blur".to_string(), args).unwrap();
    assert_eq!(kc.name, "blur");
    assert_eq!(
        kc.args,
        vec![
            KernelArg::I64(-5),
            KernelArg::IntBuf { name: "a".to_string(), id: 2 },
            // a fixed image consumes three consecutive kernel parameters
            KernelArg::ImgBuf { name: "pic".to_string(), id: 3 },
            KernelArg::USize(8),
            KernelArg::USize(9),
            KernelArg::F64Bits(2.5f64.to_bits()),
            // implicit trailing frame size, width then height, as u32
            KernelArg::U32(6),
            KernelArg::U32(7),
        ]
    );
}

#[test]
fn every_scalar_width_binds_exactly() {
    let s = CScope::init(1, 2);
    let args = vec![
        ScriptValue::I8(-1),
        ScriptValue::U8(2),
        ScriptValue::I16(-3),
        ScriptValue::U16(4),
        ScriptValue::I32(-5),
        ScriptValue::U32(6),
        ScriptValue::I64(-7),
        ScriptValue::U64(8),
        ScriptValue::F32Bits(1.5f32.to_bits()),
        ScriptValue::F64Bits(2.5f64.to_bits()),
        ScriptValue::ISize(-9),
        ScriptValue::USize(10),
    ];
    let kc = s.call_kernel("k".to_string(), args).unwrap();
    assert_eq!(
        kc.args,
        vec![
            KernelArg::I8(-1),
            KernelArg::U8(2),
            KernelArg::I16(-3),
            KernelArg::U16(4),
            KernelArg::I32(-5),
            KernelArg::U32(6),
            KernelArg::I64(-7),
            KernelArg::U64(8),
            KernelArg::F32Bits(1.5f32.to_bits()),
            KernelArg::F64Bits(2.5f64.to_bits()),
            KernelArg::ISize(-9),
            KernelArg::USize(10),
            KernelArg::U32(1),
            KernelArg::U32(2),
        ]
    );
}

#[test]
fn empty_call_gets_frame_size_only() {
    let s = CScope::init(640, 480);
    let kc = s.call_kernel("k".to_string(), vec![]).unwrap();
    assert_eq!(kc.args, vec![KernelArg::U32(640), KernelArg::U32(480)]);
}

#[test]
fn dynamic_image_binds_array_only() {
    let mut s = CScope::init(2, 2);
    s.create_dynimage("work".to_string()).unwrap();
    let kc = s.call_kernel("k".to_string(), vec![img_ref("work", 2, 2)]).unwrap();
    assert_eq!(
        kc.args,
        vec![
            KernelArg::ImgBuf { name: "work".to_string(), id: 2 },
            KernelArg::U32(2),
            KernelArg::U32(2),
        ]
    );
}

#[test]
fn unknown_buffer_name_fails_naming_it() {
    let mut s = CScope::init(2, 2);
    s.create_int_buffer("have".to_string(), vec![1]).unwrap();
    let before = s.clone();
    let r = s.call_kernel(
        "k".to_string(),
        vec![ScriptValue::I32(1), buf_ref("nosuch", 3)],
    );
    assert_eq!(r, Err(CError::NoBuffer("nosuch".to_string())));
    // No buffer was mutated by the failing call.
    assert_eq!(s, before);
}

#[test]
fn unknown_image_name_fails_naming_it() {
    let s = CScope::init(2, 2);
    let r = s.call_kernel("k".to_string(), vec![img_ref("ghost", 1, 1)]);
    assert_eq!(r, Err(CError::NoImage("ghost".to_string())));
}

#[test]
fn buffer_reference_to_image_kind_fails() {
    let mut s = CScope::init(2, 2);
    s.create_image("pic".to_string(), 1, 1).unwrap();
    let r = s.call_kernel("k".to_string(), vec![buf_ref("pic", 3)]);
    assert_eq!(r, Err(CError::NoBuffer("pic".to_string())));
    // And an image reference to a scalar buffer fails the same way.
    s.create_int_buffer("nums".to_string(), vec![1]).unwrap();
    let r = s.call_kernel("k".to_string(), vec![img_ref("nums", 1, 1)]);
    assert_eq!(r, Err(CError::NoImage("nums".to_string())));
}

#[test]
fn leftmost_failure_wins() {
    let s = CScope::init(2, 2);
    let r = s.call_kernel(
        "k".to_string(),
        vec![buf_ref("first-missing", 1), img_ref("second-missing", 1, 1)],
    );
    assert_eq!(r, Err(CError::NoBuffer("first-missing".to_string())));
}

#[test]
fn resolution_is_deterministic() {
    let mut s = CScope::init(3, 3);
    let a = s.create_float_buffer("aux".to_string(), vec![0u64; 2]).unwrap();
    let args = || vec![buf_ref("aux", a.size), ScriptValue::U8(1)];
    let k1 = s.call_kernel("k".to_string(), args()).unwrap();
    let k2 = s.call_kernel("k".to_string(), args()).unwrap();
    assert_eq!(k1, k2);
    // Both resolutions reference the same underlying device buffer identity.
    let id_in_registry = match s.lookup("aux") {
        Some(Buff::FloatBuffer { id, .. }) => *id,
        other => panic!("aux wrong: {:?}", other),
    };
    assert_eq!(k1.args[0], KernelArg::FloatBuf { name: "aux".to_string(), id: id_in_registry });
}

#[test]
fn trailing_frame_args_track_resize() {
    let mut s = CScope::init(2, 2);
    s.create_dynimage("work".to_string()).unwrap();
    let k1 = s.call_kernel("k".to_string(), vec![img_ref("work", 2, 2)]).unwrap();
    assert_eq!(&k1.args[1..], &[KernelArg::U32(2), KernelArg::U32(2)]);
    s.set_image_size(7, 3);
    let k2 = s.call_kernel("k".to_string(), vec![img_ref("work", 2, 2)]).unwrap();
    assert_eq!(&k2.args[1..], &[KernelArg::U32(7), KernelArg::U32(3)]);
    // The dynamic image keeps its device-buffer identity across the resize.
    assert_eq!(k1.args[0], k2.args[0]);
}
