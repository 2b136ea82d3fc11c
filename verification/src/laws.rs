//! The properties the pipeline core guarantees, each stated and proved over
//! the spec functions that the executable contracts use.

use vstd::prelude::*;

use crate::errors::CError;
use crate::kernel::{
    args_of, resolve_args, resolve_value, spec_call_args, lemma_resolve_args_prefix_err,
    KernelArg, ScriptValue,
};
use crate::refs::{BufferRhaiRef, ImageRhaiRef};
use crate::registry::{
    find_name, is_reserved, lemma_find_name, shape_ok, spec_lookup, Buff, CScope, Entry,
};
use crate::transfer::{input_bytes, output_bytes, set_image_post, RgbFrame};

verus! {

/// Reserved-slot invariant: in any well-formed registry — the state `init`
/// establishes and every buffer-creating, resizing or transferring operation
/// preserves, whatever sequence of script-created buffers came before —
/// "input" and "output" are bound to dynamic images holding exactly
/// `width * height * 3` bytes for the current frame dimensions.
pub proof fn lemma_reserved_slots(s: CScope)
    requires
        s.wf(),
    ensures
        (spec_lookup(s.entries@, "input"@) matches Some(b) && b is DynImage && b.bytes().len() == (
        s.width as int) * (s.height as int) * 3),
        (spec_lookup(s.entries@, "output"@) matches Some(b) && b is DynImage && b.bytes().len()
            == (s.width as int) * (s.height as int) * 3),
{
    lemma_find_name(s.entries@, "input"@);
    lemma_find_name(s.entries@, "output"@);
    let i = find_name(s.entries@, "input"@);
    let o = find_name(s.entries@, "output"@);
    assert(i >= 0 && o >= 0);
    assert(shape_ok(s.entries@[i].buff, s.width as int, s.height as int));
    assert(shape_ok(s.entries@[o].buff, s.width as int, s.height as int));
}

/// Round-trip identity: upload a frame into "input", hand the input slot's
/// bytes back verbatim into "output" — as a pipeline whose run phase copies
/// "input" to "output" does — and the downloaded output is pixel-identical to
/// the uploaded image.
pub proof fn lemma_round_trip(s0: CScope, s1: CScope, s2: CScope, img: RgbFrame)
    requires
        s0.wf(),
        img.wf(),
        img.width == s0.width,
        img.height == s0.height,
        set_image_post(s0, s1, "input"@, img.data@),
        set_image_post(s1, s2, "output"@, input_bytes(s1)),
    ensures
        s2.width == img.width,
        s2.height == img.height,
        output_bytes(s2) == img.data@,
{
    reveal_strlit("input");
    reveal_strlit("output");
    assert(("input"@).len() == 5);
    assert(("output"@).len() == 6);
    assert(input_bytes(s1) == img.data@);
}

/// Resolution determinism: for a fixed registry state, resolving the same
/// script values twice yields the same kernel arguments — in particular, a
/// reference resolves to the buffer binding with the same allocation
/// identity, hence the same underlying device buffer.
pub proof fn lemma_resolution_deterministic(
    s: CScope,
    vs: Seq<ScriptValue>,
    r1: Result<Seq<KernelArg>, CError>,
    r2: Result<Seq<KernelArg>, CError>,
)
    requires
        r1 == spec_call_args(s, vs),
        r2 == spec_call_args(s, vs),
    ensures
        r1 == r2,
{
}

/// The per-value contributions of a successful resolution, concatenated in
/// script order.
pub open spec fn flat_args(entries: Seq<Entry>, vs: Seq<ScriptValue>) -> Seq<KernelArg>
    decreases vs.len(),
{
    if vs.len() == 0 {
        Seq::empty()
    } else {
        args_of(resolve_value(entries, vs[0])) + flat_args(entries, vs.skip(1))
    }
}

/// Argument-order preservation: when every script value resolves, the kernel
/// binds exactly each value's contribution in script order, followed by the
/// frame width and height as the two trailing unsigned 32-bit scalars.
pub proof fn lemma_argument_order(s: CScope, vs: Seq<ScriptValue>)
    requires
        forall|i: int| 0 <= i < vs.len() ==> resolve_value(s.entries@, vs[i]) is Ok,
    ensures
        (spec_call_args(s, vs) matches Ok(a) && a == flat_args(s.entries@, vs) + seq![
            KernelArg::U32(s.width as u32),
            KernelArg::U32(s.height as u32),
        ]),
{
    lemma_resolve_args_all_ok(s.entries@, vs);
}

/// When every value resolves, the whole list resolves to the concatenation of
/// the per-value contributions.
pub proof fn lemma_resolve_args_all_ok(entries: Seq<Entry>, vs: Seq<ScriptValue>)
    requires
        forall|i: int| 0 <= i < vs.len() ==> resolve_value(entries, vs[i]) is Ok,
    ensures
        resolve_args(entries, vs) == Ok::<Seq<KernelArg>, CError>(flat_args(entries, vs)),
    decreases vs.len(),
{
    if vs.len() == 0 {
        assert(flat_args(entries, vs) =~= Seq::<KernelArg>::empty());
    } else {
        assert forall|i: int| 0 <= i < vs.skip(1).len() implies resolve_value(
            entries,
            vs.skip(1)[i],
        ) is Ok by {
            assert(vs.skip(1)[i] == vs[i + 1]);
        }
        lemma_resolve_args_all_ok(entries, vs.skip(1));
        assert(resolve_value(entries, vs[0]) is Ok);
    }
}

/// A fixed-image reference consumes three consecutive kernel parameters for
/// one script argument: the device array, then its width, then its height.
pub proof fn lemma_fixed_image_triplet(
    entries: Seq<Entry>,
    r: ImageRhaiRef,
    id: u64,
    w: usize,
    h: usize,
    data: Vec<u8>,
)
    requires
        spec_lookup(entries, r.name@) == Some(Buff::Image { id, width: w, height: h, data }),
    ensures
        resolve_value(entries, ScriptValue::ImageRef(r)) == Ok::<Seq<KernelArg>, CError>(
            seq![
                KernelArg::ImgBuf { name: r.name, id },
                KernelArg::USize(w),
                KernelArg::USize(h),
            ],
        ),
{
}

/// Unknown-name failure, scalar-buffer case: a kernel call whose leftmost
/// failing argument is a buffer reference to a name never created (or bound
/// to an image entry) fails with an error naming that buffer. `call_kernel`
/// reads the registry through a shared reference, so no buffer is mutated.
pub proof fn lemma_unknown_buffer_name(s: CScope, vs: Seq<ScriptValue>, i: int, r: BufferRhaiRef)
    requires
        0 <= i < vs.len(),
        vs[i] == ScriptValue::BufferRef(r),
        resolve_value(s.entries@, vs[i]) is Err,
        resolve_args(s.entries@, vs.take(i)) is Ok,
    ensures
        spec_call_args(s, vs) == Err::<Seq<KernelArg>, CError>(CError::NoBuffer(r.name)),
{
    lemma_resolve_args_prefix_err(s.entries@, vs, i);
}

/// Unknown-name failure, image case: a kernel call whose leftmost failing
/// argument is an image reference to a name never created (or bound to a
/// scalar-buffer entry) fails with an error naming that image.
pub proof fn lemma_unknown_image_name(s: CScope, vs: Seq<ScriptValue>, i: int, r: ImageRhaiRef)
    requires
        0 <= i < vs.len(),
        vs[i] == ScriptValue::ImageRef(r),
        resolve_value(s.entries@, vs[i]) is Err,
        resolve_args(s.entries@, vs.take(i)) is Ok,
    ensures
        spec_call_args(s, vs) == Err::<Seq<KernelArg>, CError>(CError::NoImage(r.name)),
{
    lemma_resolve_args_prefix_err(s.entries@, vs, i);
}

/// Resize-on-frame-change: once the frame size stands at `(w2, h2)` — as
/// `set_image_size` ensures before the script's run phase executes — both
/// reserved slots hold exactly `w2 * h2 * 3` bytes, and a download is sized
/// `(w2, h2)`.
pub proof fn lemma_resize_on_frame_change(post: CScope, w2: usize, h2: usize)
    requires
        post.wf(),
        post.width == w2,
        post.height == h2,
    ensures
        input_bytes(post).len() == (w2 as int) * (h2 as int) * 3,
        output_bytes(post).len() == (w2 as int) * (h2 as int) * 3,
{
    lemma_reserved_slots(post);
}

/// One processed frame at unchanged size, as the executor performs it:
/// re-asserting the same frame size leaves the registry untouched, the image
/// is uploaded into "input", the script's kernel calls read the registry
/// without mutating it, and the downloaded bytes land in "output".
pub open spec fn same_size_frame_post(pre: CScope, post: CScope, img: RgbFrame, out: Seq<u8>) -> bool {
    exists|mid: CScope|
        #![auto]
        set_image_post(pre, mid, "input"@, img.data@) && set_image_post(mid, post, "output"@, out)
}

/// Batch reuse, one step: a frame of unchanged size leaves every
/// script-created buffer exactly as it was — same allocation identity, same
/// contents.
pub proof fn lemma_batch_reuse_step(
    pre: CScope,
    post: CScope,
    img: RgbFrame,
    out: Seq<u8>,
    n: Seq<char>,
)
    requires
        same_size_frame_post(pre, post, img, out),
        !is_reserved(n),
    ensures
        spec_lookup(post.entries@, n) == spec_lookup(pre.entries@, n),
{
    let mid = choose|mid: CScope|
        #![auto]
        set_image_post(pre, mid, "input"@, img.data@) && set_image_post(mid, post, "output"@, out);
    assert(spec_lookup(mid.entries@, n) == spec_lookup(pre.entries@, n));
    assert(spec_lookup(post.entries@, n) == spec_lookup(mid.entries@, n));
}

/// Batch reuse: an auxiliary buffer created during initialization persists,
/// identity and contents, across three successive frames of unchanged size.
pub proof fn lemma_batch_reuse(
    s0: CScope,
    s1: CScope,
    s2: CScope,
    s3: CScope,
    img1: RgbFrame,
    img2: RgbFrame,
    img3: RgbFrame,
    o1: Seq<u8>,
    o2: Seq<u8>,
    o3: Seq<u8>,
    n: Seq<char>,
)
    requires
        same_size_frame_post(s0, s1, img1, o1),
        same_size_frame_post(s1, s2, img2, o2),
        same_size_frame_post(s2, s3, img3, o3),
        !is_reserved(n),
    ensures
        spec_lookup(s3.entries@, n) == spec_lookup(s0.entries@, n),
{
    lemma_batch_reuse_step(s0, s1, img1, o1, n);
    lemma_batch_reuse_step(s1, s2, img2, o2, n);
    lemma_batch_reuse_step(s2, s3, img3, o3, n);
}

} // verus!
