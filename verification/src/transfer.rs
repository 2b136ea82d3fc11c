//! Host/device image transfer: moving image bytes between host memory and the
//! reserved "input"/"output" dynamic-image slots.
//!
//! Uploads serialize the host image as an interleaved RGB byte sequence of
//! length `width * height * 3`; downloads are checked against the current
//! frame dimensions, and a mismatching byte count is a fatal shape error.

use vstd::prelude::*;

use crate::errors::CError;
use crate::registry::{
    lemma_find_name, lemma_find_name_same_names, lemma_find_name_unique, spec_lookup, find_name,
    is_reserved, names_unique, shape_ok, Buff, CScope,
};
use crate::util::copy_vec;

verus! {

/// A decoded in-memory RGB image: three bytes per pixel, row-major, no
/// padding.
#[derive(Debug, Clone, PartialEq, Eq)]
pub struct RgbFrame {
    pub width: usize,
    pub height: usize,
    pub data: Vec<u8>,
}

impl RgbFrame {
    /// The byte buffer holds exactly one RGB triple per pixel and the
    /// dimensions are representable as 32-bit values.
    pub open spec fn wf(self) -> bool {
        &&& self.width <= u32::MAX
        &&& self.height <= u32::MAX
        &&& self.data@.len() == (self.width as int) * (self.height as int) * 3
    }

    /// Reinterprets a raw byte buffer as an image of the given shape; fails
    /// exactly when the byte count does not match the expected image size.
    pub fn from_raw(width: usize, height: usize, data: Vec<u8>) -> (r: Option<RgbFrame>)
        ensures
            (width <= u32::MAX && height <= u32::MAX && data@.len() == (width as int) * (
            height as int) * 3) ==> (r matches Some(f) && f.width == width && f.height == height
                && f.data@ == data@ && f.wf()),
            !(width <= u32::MAX && height <= u32::MAX && data@.len() == (width as int) * (
            height as int) * 3) ==> r is None,
    {
        if width > (u32::MAX as usize) || height > (u32::MAX as usize) {
            return None;
        }
        let len = data.len();
        let pixels = match width.checked_mul(height) {
            Some(p) => p,
            None => {
                proof {
                    assert((width as int) * (height as int) * 3 >= (width as int) * (
                    height as int));
                }
                return None;
            },
        };
        let expected = match pixels.checked_mul(3) {
            Some(q) => q,
            None => {
                return None;
            },
        };
        if len != expected {
            return None;
        }
        Some(RgbFrame { width, height, data })
    }
}

/// The bytes currently held by the reserved "input" slot.
pub open spec fn input_bytes(s: CScope) -> Seq<u8> {
    match spec_lookup(s.entries@, "input"@) {
        Some(b) => b.bytes(),
        None => Seq::empty(),
    }
}

/// The bytes currently held by the reserved "output" slot.
pub open spec fn output_bytes(s: CScope) -> Seq<u8> {
    match spec_lookup(s.entries@, "output"@) {
        Some(b) => b.bytes(),
        None => Seq::empty(),
    }
}

/// The allocation identity of the entry under `name` (zero when absent).
pub open spec fn slot_id(s: CScope, name: Seq<char>) -> u64 {
    match spec_lookup(s.entries@, name) {
        Some(b) => b.id(),
        None => 0,
    }
}

/// How a registry state `post` relates to `pre` after `bytes` were written
/// into the reserved dynamic-image slot `name`: the slot holds exactly those
/// bytes in the same device buffer, and everything else — frame size,
/// allocation counter, entry names, and every other slot — is unchanged.
pub open spec fn set_image_post(pre: CScope, post: CScope, name: Seq<char>, bytes: Seq<u8>) -> bool {
    &&& post.width == pre.width
    &&& post.height == pre.height
    &&& post.next_id == pre.next_id
    &&& post.entries@.len() == pre.entries@.len()
    &&& forall|i: int|
        0 <= i < pre.entries@.len() ==> post.entries@[i].name@ == pre.entries@[i].name@
    &&& (spec_lookup(post.entries@, name) matches Some(b) && b is DynImage && b.bytes() == bytes)
    &&& slot_id(post, name) == slot_id(pre, name)
    &&& forall|n: Seq<char>|
        n != name ==> spec_lookup(post.entries@, n) == spec_lookup(pre.entries@, n)
}

impl CScope {
    /// Overwrites the contents of the reserved dynamic-image slot `name`.
    fn write_reserved(&mut self, name: &str, bytes: Vec<u8>)
        requires
            old(self).wf(),
            is_reserved(name@),
            bytes@.len() == (old(self).width as int) * (old(self).height as int) * 3,
        ensures
            final(self).wf(),
            set_image_post(*old(self), *final(self), name@, bytes@),
    {
        let ghost pre = *self;
        let idx = match self.lookup_reserved_index(name) {
            Some(i) => i,
            None => {
                proof {
                    assert(false);
                }
                0
            },
        };
        let id = match &self.entries[idx].buff {
            Buff::DynImage { id, .. } => *id,
            _ => {
                proof {
                    assert(false);
                }
                0
            },
        };
        let e = &mut self.entries[idx];
        e.buff = Buff::DynImage { id, data: bytes };
        proof {
            lemma_write_reserved_post(pre, *self, idx as int, name@, bytes@);
        }
    }

    /// Index of the reserved slot `name`; present and a dynamic image in any
    /// well-formed registry.
    fn lookup_reserved_index(&self, name: &str) -> (r: Option<usize>)
        requires
            self.wf(),
            is_reserved(name@),
        ensures
            (r matches Some(i) && i < self.entries@.len() && find_name(self.entries@, name@)
                == i && self.entries@[i as int].name@ == name@ && self.entries@[i as int].buff
                is DynImage),
    {
        let r = self.find_index(name);
        proof {
            lemma_find_name(self.entries@, name@);
        }
        match r {
            Some(i) => Some(i),
            None => {
                proof {
                    assert(false);
                }
                None
            },
        }
    }

    /// Uploads the host image into the reserved "input" slot; the image must
    /// match the current frame dimensions, which the executor establishes by
    /// updating the frame size first.
    pub fn set_input(&mut self, img: &RgbFrame)
        requires
            old(self).wf(),
            img.wf(),
            img.width == old(self).width,
            img.height == old(self).height,
        ensures
            final(self).wf(),
            set_image_post(*old(self), *final(self), "input"@, img.data@),
    {
        let data = copy_vec(&img.data);
        self.write_reserved("input", data);
    }

    /// Deposits downloaded device bytes into the reserved "output" slot;
    /// fails exactly when the byte count does not match the current frame
    /// dimensions, which signals that the script wrote a wrongly-shaped
    /// result.
    pub fn store_output(&mut self, bytes: Vec<u8>) -> (r: Result<(), CError>)
        requires
            old(self).wf(),
        ensures
            final(self).wf(),
            bytes@.len() == (old(self).width as int) * (old(self).height as int) * 3 ==> (r is Ok
                && set_image_post(*old(self), *final(self), "output"@, bytes@)),
            bytes@.len() != (old(self).width as int) * (old(self).height as int) * 3 ==> (r == Err::<
                (),
                CError,
            >(
                CError::ShapeMismatch {
                    expected: ((old(self).width as int) * (old(self).height as int) * 3) as usize,
                    got: bytes@.len() as usize,
                },
            ) && *final(self) == *old(self)),
    {
        let expected = self.width * self.height * 3;
        if bytes.len() != expected {
            return Err(CError::ShapeMismatch { expected, got: bytes.len() });
        }
        self.write_reserved("output", bytes);
        Ok(())
    }

    /// Reads the reserved "output" slot back into a host image sized to the
    /// current frame dimensions.
    pub fn get_output(&self) -> (r: RgbFrame)
        requires
            self.wf(),
        ensures
            r.wf(),
            r.width == self.width,
            r.height == self.height,
            r.data@ == output_bytes(*self),
    {
        let idx = match self.lookup_reserved_index("output") {
            Some(i) => i,
            None => {
                proof {
                    assert(false);
                }
                0
            },
        };
        let data = match &self.entries[idx].buff {
            Buff::DynImage { data, .. } => copy_vec(data),
            _ => {
                proof {
                    assert(false);
                }
                Vec::new()
            },
        };
        proof {
            assert(shape_ok(self.entries@[idx as int].buff, self.width as int, self.height as int));
        }
        RgbFrame { width: self.width, height: self.height, data }
    }
}

/// Overwriting the dynamic-image slot at `idx` (which bears `name`) with new
/// bytes, keeping its identity, satisfies the write relation and preserves
/// well-formedness.
proof fn lemma_write_reserved_post(pre: CScope, post: CScope, idx: int, name: Seq<char>, bytes: Seq<u8>)
    requires
        pre.wf(),
        is_reserved(name),
        bytes.len() == (pre.width as int) * (pre.height as int) * 3,
        0 <= idx < pre.entries@.len(),
        pre.entries@[idx].name@ == name,
        pre.entries@[idx].buff is DynImage,
        post.width == pre.width,
        post.height == pre.height,
        post.next_id == pre.next_id,
        post.entries@.len() == pre.entries@.len(),
        forall|j: int| 0 <= j < pre.entries@.len() && j != idx ==> post.entries@[j] == pre.entries@[j],
        post.entries@[idx].name == pre.entries@[idx].name,
        (post.entries@[idx].buff matches Buff::DynImage { id, data } && id
            == pre.entries@[idx].buff.id() && data@ == bytes),
    ensures
        post.wf(),
        set_image_post(pre, post, name, bytes),
{
    assert forall|j: int| 0 <= j < post.entries@.len() implies post.entries@[j].name@
        == pre.entries@[j].name@ by {}
    assert(names_unique(post.entries@));
    lemma_find_name_same_names(pre.entries@, post.entries@, name);
    lemma_find_name_unique(pre.entries@, name, idx);
    assert(spec_lookup(post.entries@, name) == Some(post.entries@[idx].buff));
    assert forall|n: Seq<char>| n != name implies spec_lookup(post.entries@, n) == spec_lookup(
        pre.entries@,
        n,
    ) by {
        lemma_find_name_same_names(pre.entries@, post.entries@, n);
        lemma_find_name(pre.entries@, n);
        let r = find_name(pre.entries@, n);
        if r >= 0 {
            assert(r != idx);
            assert(post.entries@[r] == pre.entries@[r]);
        }
    }
    lemma_find_name(pre.entries@, "input"@);
    lemma_find_name(pre.entries@, "output"@);
    assert forall|i: int| 0 <= i < post.entries@.len() implies shape_ok(
        post.entries@[i].buff,
        post.width as int,
        post.height as int,
    ) by {
        if i != idx {
            assert(post.entries@[i] == pre.entries@[i]);
        }
    }
    assert forall|i: int| 0 <= i < post.entries@.len() implies post.entries@[i].buff.id()
        < post.next_id by {
        if i != idx {
            assert(post.entries@[i] == pre.entries@[i]);
        } else {
            assert(pre.entries@[idx].buff.id() < pre.next_id);
        }
    }
}

} // verus!

verus! {

impl CScope {
    /// The per-frame entry protocol of the executor's `compute`: if the
    /// image's dimensions differ from the current frame size the frame is
    /// resized first (re-sizing every dynamic image), then the image is
    /// uploaded into "input" — all before the script's run phase executes.
    /// Frames of unchanged size leave every script-created buffer untouched.
    pub fn begin_frame(&mut self, img: &RgbFrame)
        requires
            old(self).wf(),
            img.wf(),
        ensures
            final(self).wf(),
            final(self).width == img.width,
            final(self).height == img.height,
            final(self).next_id == old(self).next_id,
            input_bytes(*final(self)) == img.data@,
            output_bytes(*final(self)).len() == (img.width as int) * (img.height as int) * 3,
            (img.width == old(self).width && img.height == old(self).height) ==> (forall|
                n: Seq<char>,
            |
                !is_reserved(n) ==> spec_lookup(final(self).entries@, n) == spec_lookup(
                    old(self).entries@,
                    n,
                )),
    {
        let ghost pre = *self;
        let n = img.data.len();
        proof {
            assert(n == img.data@.len());
            assert((img.width as int) * (img.height as int) * 3 <= usize::MAX as int);
        }
        self.set_image_size(img.width, img.height);
        let ghost mid = *self;
        self.set_input(img);
        proof {
            crate::laws::lemma_reserved_slots(*self);
            if img.width == pre.width && img.height == pre.height {
                assert(mid == pre);
                assert forall|n: Seq<char>| !is_reserved(n) implies spec_lookup(
                    self.entries@,
                    n,
                ) == spec_lookup(pre.entries@, n) by {
                    assert(n != "input"@);
                    assert(spec_lookup(self.entries@, n) == spec_lookup(mid.entries@, n));
                }
            }
        }
    }
}

} // verus!
