//! Scenario tests for the registry lifecycle, frame transfer, and the
//! properties the pipeline core guarantees.

use oclpipe::errors::CError;
use oclpipe::registry::{Buff, CScope, ScopeVar};
use oclpipe::transfer::RgbFrame;

fn frame(width: usize, height: usize, seed: u8) -> RgbFrame {
    let n = width * height * 3;
    let mut data = Vec::with_capacity(n);
    for i in 0..n {
        data.push(seed.wrapping_add(i as u8));
    }
    RgbFrame::from_raw(width, height, data).unwrap()
}

fn image_bytes(s: &CScope, name: &str) -> Vec<u8> {
    match s.lookup(name) {
        Some(Buff::DynImage { data, .. }) => data.clone(),
        Some(Buff::Image { data, .. }) => data.clone(),
        other => panic!("expected an image entry, got {:?}", other),
    }
}

#[test]
fn reserved_slots_after_init() {
    let s = CScope::init(4, 3);
    match s.lookup("input") {
        Some(Buff::DynImage { id, data }) => {
            assert_eq!(*id, 0);
            assert_eq!(data.len(), 4 * 3 * 3);
            assert!(data.iter().all(|b| *b == 0));
        }
        other => panic!("input slot wrong: {:?}", other),
    }
    match s.lookup("output") {
        Some(Buff::DynImage { id, data }) => {
            assert_eq!(*id, 1);
            assert_eq!(data.len(), 4 * 3 * 3);
        }
        other => panic!("output slot wrong: {:?}", other),
    }
    assert!(s.lookup("anything-else").is_none());
}

#[test]
fn reserved_slots_survive_script_creations() {
    let mut s = CScope::init(2, 2);
    s.create_int_buffer("a".to_string(), vec![1, 2, 3]).unwrap();
    s.create_float_buffer("b".to_string(), vec![0u64; 4]).unwrap();
    s.create_dynimage("c".to_string()).unwrap();
    s.create_image("d".to_string(), 5, 6).unwrap();
    for name in ["input", "output"] {
        match s.lookup(name) {
            Some(Buff::DynImage { data, .. }) => assert_eq!(data.len(), 2 * 2 * 3),
            other => panic!("reserved slot {} wrong: {:?}", name, other),
        }
    }
}

#[test]
fn reserved_names_are_refused() {
    let mut s = CScope::init(2, 2);
    let before_in = image_bytes(&s, "input");
    let r = s.create_int_buffer("input".to_string(), vec![1]);
    assert_eq!(r, Err(CError::ReservedName("input".to_string())));
    let r = s.create_float_buffer("output".to_string(), vec![1]);
    assert_eq!(r, Err(CError::ReservedName("output".to_string())));
    let r = s.create_dynimage("input".to_string());
    assert_eq!(r, Err(CError::ReservedName("input".to_string())));
    let r = s.create_image("output".to_string(), 1, 1);
    assert_eq!(r, Err(CError::ReservedName("output".to_string())));
    // The reserved slots are untouched.
    assert_eq!(image_bytes(&s, "input"), before_in);
    assert!(matches!(s.lookup("input"), Some(Buff::DynImage { .. })));
}

#[test]
fn create_overwrites_prior_entry() {
    let mut s = CScope::init(1, 1);
    let r1 = s.create_int_buffer("aux".to_string(), vec![1, 2]).unwrap();
    assert_eq!(r1.len(), 2);
    let r2 = s.create_int_buffer("aux".to_string(), vec![9, 9, 9]).unwrap();
    assert_eq!(r2.len(), 3);
    match s.lookup("aux") {
        Some(Buff::IntBuffer { id, data }) => {
            assert_eq!(*id, 3); // second allocation: ids 0,1 are reserved slots
            assert_eq!(data, &vec![9i64, 9, 9]);
        }
        other => panic!("aux wrong: {:?}", other),
    }
}

#[test]
fn round_trip_identity() {
    let mut s = CScope::init(3, 2);
    let img = frame(3, 2, 11);
    s.set_input(&img);
    // A run phase that copies "input" to "output" verbatim:
    let copied = image_bytes(&s, "input");
    s.store_output(copied).unwrap();
    let out = s.get_output();
    assert_eq!(out, img);
}

#[test]
fn store_output_shape_mismatch() {
    let mut s = CScope::init(2, 2);
    let before = image_bytes(&s, "output");
    let r = s.store_output(vec![0u8; 5]);
    assert_eq!(r, Err(CError::ShapeMismatch { expected: 12, got: 5 }));
    assert_eq!(image_bytes(&s, "output"), before);
}

#[test]
fn resize_on_frame_change() {
    let mut s = CScope::init(2, 2);
    s.create_dynimage("work".to_string()).unwrap();
    s.set_image_size(5, 4);
    for name in ["input", "output", "work"] {
        assert_eq!(image_bytes(&s, name).len(), 5 * 4 * 3);
    }
    let img = frame(5, 4, 3);
    s.set_input(&img);
    let out = s.get_output();
    assert_eq!(out.width, 5);
    assert_eq!(out.height, 4);
    assert_eq!(out.data.len(), 5 * 4 * 3);
}

#[test]
fn resize_keeps_fixed_entries() {
    let mut s = CScope::init(2, 2);
    s.create_int_buffer("ints".to_string(), vec![4, 5]).unwrap();
    s.create_image("fixed".to_string(), 7, 1).unwrap();
    let ints_before = s.lookup("ints").unwrap().clone();
    let fixed_before = s.lookup("fixed").unwrap().clone();
    s.set_image_size(9, 9);
    assert_eq!(s.lookup("ints").unwrap(), &ints_before);
    assert_eq!(s.lookup("fixed").unwrap(), &fixed_before);
}

#[test]
fn batch_reuse_three_frames() {
    let mut s = CScope::init(4, 4);
    // init phase: one auxiliary float buffer of length 4
    let r = s
        .create_float_buffer(
            "aux".to_string(),
            vec![
                1.0f64.to_bits(),
                2.0f64.to_bits(),
                3.0f64.to_bits(),
                4.0f64.to_bits(),
            ],
        )
        .unwrap();
    assert_eq!(r.len(), 4);
    let aux_before = s.lookup("aux").unwrap().clone();
    for seed in [1u8, 2, 3] {
        let img = frame(4, 4, seed);
        s.set_image_size(4, 4);
        s.set_input(&img);
        let copied = image_bytes(&s, "input");
        s.store_output(copied).unwrap();
        let out = s.get_output();
        assert_eq!(out.data, img.data);
    }
    // Same allocation identity, same contents, across all three frames.
    assert_eq!(s.lookup("aux").unwrap(), &aux_before);
}

#[test]
fn from_raw_checks_byte_count() {
    assert!(RgbFrame::from_raw(2, 2, vec![0u8; 12]).is_some());
    assert!(RgbFrame::from_raw(2, 2, vec![0u8; 11]).is_none());
    assert!(RgbFrame::from_raw(2, 2, vec![0u8; 13]).is_none());
    assert!(RgbFrame::from_raw(0, 0, vec![]).is_some());
}

#[test]
fn scope_vars_reflect_registry() {
    let mut s = CScope::init(2, 3);
    s.create_int_buffer("nums".to_string(), vec![1, 2, 3, 4, 5]).unwrap();
    s.create_image("icon".to_string(), 8, 9).unwrap();
    let vars = s.create_rhai_scope();
    assert_eq!(vars.len(), 4);
    match &vars[0] {
        ScopeVar::Img(r) => {
            assert_eq!(r.name, "input");
            assert_eq!(r.width(), 2);
            assert_eq!(r.height(), 3);
        }
        other => panic!("scope var wrong: {:?}", other),
    }
    match &vars[2] {
        ScopeVar::Buf(r) => {
            assert_eq!(r.name, "nums");
            assert_eq!(r.len(), 5);
        }
        other => panic!("scope var wrong: {:?}", other),
    }
    match &vars[3] {
        ScopeVar::Img(r) => {
            assert_eq!(r.name, "icon");
            assert_eq!(r.width(), 8);
            assert_eq!(r.height(), 9);
        }
        other => panic!("scope var wrong: {:?}", other),
    }
}

#[test]
fn begin_frame_resizes_before_run() {
    let mut s = CScope::init(2, 2);
    s.create_float_buffer("aux".to_string(), vec![0u64; 4]).unwrap();
    let aux_before = s.lookup("aux").unwrap().clone();
    // A frame of a new size: the reserved slots are resized before any
    // script statement could observe them.
    let img = frame(6, 5, 1);
    s.begin_frame(&img);
    assert_eq!(s.width, 6);
    assert_eq!(s.height, 5);
    assert_eq!(image_bytes(&s, "input"), img.data);
    assert_eq!(image_bytes(&s, "output").len(), 6 * 5 * 3);
    let out = s.get_output();
    assert_eq!(out.width, 6);
    assert_eq!(out.height, 5);
    // A frame of the same size leaves the auxiliary buffer untouched.
    let img2 = frame(6, 5, 2);
    s.begin_frame(&img2);
    assert_eq!(s.lookup("aux").unwrap(), &aux_before);
}

#[test]
fn from_raw_rejects_oversized_dimensions() {
    // Dimensions beyond 32 bits, or whose byte size cannot be computed at
    // all, are rejected outright.
    assert!(RgbFrame::from_raw(u32::MAX as usize + 1, 1, vec![0u8; 3]).is_none());
    assert!(RgbFrame::from_raw(u32::MAX as usize, u32::MAX as usize, vec![0u8; 3]).is_none());
}
