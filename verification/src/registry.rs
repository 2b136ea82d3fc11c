//! The buffer registry: a name-keyed store of typed device-buffer models,
//! shared for the lifetime of the process between the pipeline executor and
//! the scripting environment.
//!
//! The registry always holds the two reserved `DynImage` entries "input" and
//! "output", sized to the current frame dimensions; all other entries are
//! script-created during the initialization phase and are never removed.

use vstd::prelude::*;

use crate::errors::CError;
use crate::refs::{BufferRhaiRef, ImageRhaiRef};
use crate::util::{str_eq, zero_bytes, zero_seq};

verus! {

/// A typed buffer handle: what a named registry entry *is*.
///
/// Each variant carries the host-side staging contents of the device array it
/// stands for, and an allocation identity `id` that is unique across the
/// registry's lifetime: two entries answer to the same device buffer exactly
/// when their ids are equal.
#[derive(Debug, Clone, PartialEq, Eq)]
pub enum Buff {
    /// Device array of 64-bit signed integers; length fixed at creation.
    IntBuffer { id: u64, data: Vec<i64> },
    /// Device array of 64-bit floats, each held as its raw bit pattern;
    /// length fixed at creation.
    FloatBuffer { id: u64, data: Vec<u64> },
    /// RGB byte array tracking the registry's current frame size.
    DynImage { id: u64, data: Vec<u8> },
    /// RGB byte array with width and height fixed at creation, independent of
    /// the frame size.
    Image { id: u64, width: usize, height: usize, data: Vec<u8> },
}

impl Buff {
    /// The allocation identity of this handle.
    pub open spec fn id(self) -> u64 {
        match self {
            Buff::IntBuffer { id, .. } => id,
            Buff::FloatBuffer { id, .. } => id,
            Buff::DynImage { id, .. } => id,
            Buff::Image { id, .. } => id,
        }
    }

    /// The byte contents of an image-kind handle (empty for scalar buffers).
    pub open spec fn bytes(self) -> Seq<u8> {
        match self {
            Buff::DynImage { data, .. } => data@,
            Buff::Image { data, .. } => data@,
            _ => Seq::empty(),
        }
    }
}

/// One named registry slot.
#[derive(Debug, Clone, PartialEq, Eq)]
pub struct Entry {
    pub name: String,
    pub buff: Buff,
}

/// Index of the first entry named `name`, or -1 when no entry is.
pub open spec fn find_name(entries: Seq<Entry>, name: Seq<char>) -> int
    decreases entries.len(),
{
    if entries.len() == 0 {
        -1
    } else if entries[0].name@ == name {
        0
    } else {
        let r = find_name(entries.skip(1), name);
        if r < 0 {
            -1
        } else {
            r + 1
        }
    }
}

/// The handle stored under `name`, if any.
pub open spec fn spec_lookup(entries: Seq<Entry>, name: Seq<char>) -> Option<Buff> {
    let i = find_name(entries, name);
    if i < 0 {
        None
    } else {
        Some(entries[i].buff)
    }
}

/// No two entries share a name.
pub open spec fn names_unique(entries: Seq<Entry>) -> bool {
    forall|i: int, j: int|
        0 <= i < j < entries.len() ==> entries[i].name@ != entries[j].name@
}

/// The reserved keys "input" and "output".
pub open spec fn is_reserved(name: Seq<char>) -> bool {
    name == "input"@ || name == "output"@
}

/// `name` is bound to a `DynImage` entry.
pub open spec fn reserved_slot_ok(entries: Seq<Entry>, name: Seq<char>) -> bool {
    match spec_lookup(entries, name) {
        Some(b) => b is DynImage,
        None => false,
    }
}

/// Image-kind handles hold exactly `width * height * 3` bytes: dynamic images
/// against the current frame size `(w, h)`, fixed images against their own.
pub open spec fn shape_ok(b: Buff, w: int, h: int) -> bool {
    match b {
        Buff::DynImage { data, .. } => data@.len() == w * h * 3,
        Buff::Image { width, height, data, .. } => data@.len() == width * height * 3,
        _ => true,
    }
}

/// Characterization of `find_name`: it is the index of the first entry with
/// the given name, and -1 exactly when no entry has it.
pub proof fn lemma_find_name(entries: Seq<Entry>, name: Seq<char>)
    ensures
        -1 <= find_name(entries, name) < entries.len(),
        find_name(entries, name) >= 0 ==> entries[find_name(entries, name)].name@ == name,
        forall|j: int| 0 <= j < find_name(entries, name) ==> entries[j].name@ != name,
        find_name(entries, name) < 0 ==> (forall|j: int|
            0 <= j < entries.len() ==> entries[j].name@ != name),
    decreases entries.len(),
{
    if entries.len() == 0 {
    } else if entries[0].name@ == name {
    } else {
        lemma_find_name(entries.skip(1), name);
        let r = find_name(entries.skip(1), name);
        assert forall|j: int| 1 <= j < entries.len() implies entries.skip(1)[j - 1]
            == entries[j] by {};
        if r >= 0 {
            assert(entries.skip(1)[r] == entries[r + 1]);
        }
    }
}

/// With unique names, `find_name` returns the index of any entry that bears
/// the name.
pub proof fn lemma_find_name_unique(entries: Seq<Entry>, name: Seq<char>, i: int)
    requires
        names_unique(entries),
        0 <= i < entries.len(),
        entries[i].name@ == name,
    ensures
        find_name(entries, name) == i,
{
    lemma_find_name(entries, name);
    let r = find_name(entries, name);
    if r < 0 {
        assert(entries[i].name@ != name);
    } else if r < i {
        assert(entries[r].name@ != entries[i].name@);
    } else if r > i {
        assert(entries[i].name@ != name);
    }
}

/// Sequences with pointwise equal names agree on `find_name`.
pub proof fn lemma_find_name_same_names(e1: Seq<Entry>, e2: Seq<Entry>, name: Seq<char>)
    requires
        e1.len() == e2.len(),
        forall|i: int| 0 <= i < e1.len() ==> e1[i].name@ == e2[i].name@,
    ensures
        find_name(e1, name) == find_name(e2, name),
    decreases e1.len(),
{
    if e1.len() == 0 {
    } else {
        assert forall|i: int| 0 <= i < e1.skip(1).len() implies e1.skip(1)[i].name@
            == e2.skip(1)[i].name@ by {
            assert(e1.skip(1)[i] == e1[i + 1]);
            assert(e2.skip(1)[i] == e2[i + 1]);
        }
        lemma_find_name_same_names(e1.skip(1), e2.skip(1), name);
    }
}

/// The buffer registry together with the pipeline's per-frame state: the
/// current frame size and the next free allocation identity.
#[derive(Debug, Clone, PartialEq, Eq)]
pub struct CScope {
    /// The named slots, in creation order, names unique.
    pub entries: Vec<Entry>,
    /// Current frame width.
    pub width: usize,
    /// Current frame height.
    pub height: usize,
    /// Next allocation identity; every stored id is below it.
    pub next_id: u64,
}

impl CScope {
    /// Registry well-formedness: names are unique, the reserved "input" and
    /// "output" slots hold dynamic images, every image-kind entry is sized to
    /// its dimensions, the frame size fits the machine, and every allocation
    /// id is below `next_id`.
    pub open spec fn wf(self) -> bool {
        &&& names_unique(self.entries@)
        &&& self.width <= u32::MAX
        &&& self.height <= u32::MAX
        &&& (self.width as int) * (self.height as int) * 3 <= usize::MAX as int
        &&& reserved_slot_ok(self.entries@, "input"@)
        &&& reserved_slot_ok(self.entries@, "output"@)
        &&& forall|i: int|
            0 <= i < self.entries@.len() ==> shape_ok(
                self.entries@[i].buff,
                self.width as int,
                self.height as int,
            )
        &&& forall|i: int| 0 <= i < self.entries@.len() ==> self.entries@[i].buff.id() < self.next_id
    }

    /// Index of the entry named `name`, if one exists.
    pub(crate) fn find_index(&self, name: &str) -> (r: Option<usize>)
        ensures
            match r {
                Some(i) => i < self.entries@.len() && find_name(self.entries@, name@) == i,
                None => find_name(self.entries@, name@) < 0,
            },
    {
        let n = self.entries.len();
        let mut i: usize = 0;
        while i < n
            invariant
                i <= n,
                n == self.entries@.len(),
                forall|j: int| 0 <= j < i ==> self.entries@[j].name@ != name@,
            decreases n - i,
        {
            if str_eq(self.entries[i].name.as_str(), name) {
                proof {
                    lemma_find_name(self.entries@, name@);
                    let r = find_name(self.entries@, name@);
                    if r < 0 {
                        assert(self.entries@[i as int].name@ != name@);
                    } else if r < i {
                        assert(self.entries@[r].name@ != name@);
                    } else if r > i {
                        assert(self.entries@[i as int].name@ != name@);
                    }
                }
                return Some(i);
            }
            i += 1;
        }
        proof {
            lemma_find_name(self.entries@, name@);
            let r = find_name(self.entries@, name@);
            if r >= 0 {
                assert(self.entries@[r].name@ != name@);
            }
        }
        None
    }

    /// Read access to the handle stored under `name`; absence is reported to
    /// the caller, never silently substituted.
    pub fn lookup(&self, name: &str) -> (r: Option<&Buff>)
        ensures
            match r {
                Some(b) => spec_lookup(self.entries@, name@) == Some(*b),
                None => spec_lookup(self.entries@, name@) is None,
            },
    {
        match self.find_index(name) {
            Some(i) => Some(&self.entries[i].buff),
            None => None,
        }
    }

    /// Stores `buff` under `name`, overwriting any prior entry of that name.
    fn insert_buff(&mut self, name: String, buff: Buff)
        requires
            names_unique(old(self).entries@),
        ensures
            names_unique(final(self).entries@),
            spec_lookup(final(self).entries@, name@) == Some(buff),
            forall|n: Seq<char>|
                n != name@ ==> spec_lookup(final(self).entries@, n) == spec_lookup(
                    old(self).entries@,
                    n,
                ),
            forall|i: int|
                0 <= i < final(self).entries@.len() ==> (final(self).entries@[i].buff == buff || (
                0 <= i < old(self).entries@.len() && final(self).entries@[i] == old(
                    self,
                ).entries@[i])),
            final(self).width == old(self).width,
            final(self).height == old(self).height,
            final(self).next_id == old(self).next_id,
    {
        let ghost pre = self.entries@;
        let idx = self.find_index(name.as_str());
        match idx {
            Some(i) => {
                proof {
                    lemma_find_name(pre, name@);
                }
                let e = &mut self.entries[i];
                e.name = name;
                e.buff = buff;
                proof {
                    assert(self.entries@ =~= pre.update(i as int, Entry { name, buff }));
                    lemma_insert_post_update(pre, self.entries@, i as int, name, buff);
                }
            },
            None => {
                proof {
                    lemma_find_name(pre, name@);
                }
                self.entries.push(Entry { name, buff });
                proof {
                    lemma_insert_post_push(pre, self.entries@, name, buff);
                }
            },
        }
    }
}

/// After overwriting index `i` (which already bore `name`) with the new
/// handle, lookups of `name` find it and all other lookups are unchanged.
proof fn lemma_insert_post_update(
    pre: Seq<Entry>,
    post: Seq<Entry>,
    i: int,
    name: String,
    buff: Buff,
)
    requires
        names_unique(pre),
        0 <= i < pre.len(),
        pre[i].name@ == name@,
        post == pre.update(i, Entry { name, buff }),
    ensures
        names_unique(post),
        spec_lookup(post, name@) == Some(buff),
        forall|n: Seq<char>| n != name@ ==> spec_lookup(post, n) == spec_lookup(pre, n),
{
    assert(post.len() == pre.len());
    assert forall|k: int| 0 <= k < post.len() implies post[k].name@ == pre[k].name@ by {}
    lemma_find_name_unique(post, name@, i);
    assert forall|n: Seq<char>| n != name@ implies spec_lookup(post, n) == spec_lookup(
        pre,
        n,
    ) by {
        lemma_find_name_same_names(pre, post, n);
        lemma_find_name(pre, n);
        let r = find_name(pre, n);
        if r >= 0 {
            assert(r != i);
            assert(post[r] == pre[r]);
        }
    }
}

/// After pushing a fresh name, lookups of that name find the new handle and
/// all other lookups are unchanged.
proof fn lemma_insert_post_push(pre: Seq<Entry>, post: Seq<Entry>, name: String, buff: Buff)
    requires
        names_unique(pre),
        forall|j: int| 0 <= j < pre.len() ==> pre[j].name@ != name@,
        post == pre.push(Entry { name, buff }),
    ensures
        names_unique(post),
        spec_lookup(post, name@) == Some(buff),
        forall|n: Seq<char>| n != name@ ==> spec_lookup(post, n) == spec_lookup(pre, n),
{
    assert(post.len() == pre.len() + 1);
    assert(post[pre.len() as int].name@ == name@);
    assert forall|k: int| 0 <= k < pre.len() implies post[k] == pre[k] by {}
    assert(names_unique(post));
    lemma_find_name_unique(post, name@, pre.len() as int);
    assert forall|n: Seq<char>| n != name@ implies spec_lookup(post, n) == spec_lookup(
        pre,
        n,
    ) by {
        lemma_find_name(pre, n);
        lemma_find_name(post, n);
        let r = find_name(pre, n);
        let s = find_name(post, n);
        if r >= 0 {
            if s < 0 {
                assert(post[r].name@ != n);
            } else {
                lemma_find_name_unique(post, n, r);
            }
        } else {
            if s >= 0 {
                assert(s < post.len());
                if s < pre.len() {
                    assert(pre[s].name@ != n);
                }
            }
        }
    }
}

} // verus!

verus! {

/// Whether `name` is one of the reserved registry keys.
fn reserved(name: &str) -> (r: bool)
    ensures
        r == is_reserved(name@),
{
    str_eq(name, "input") || str_eq(name, "output")
}

impl CScope {
    /// Creates the registry with its two reserved dynamic-image slots, zeroed
    /// and sized to the initial frame dimensions `(width, height)`.
    pub fn init(width: usize, height: usize) -> (s: Self)
        requires
            width <= u32::MAX,
            height <= u32::MAX,
            (width as int) * (height as int) * 3 <= usize::MAX as int,
        ensures
            s.wf(),
            s.width == width,
            s.height == height,
            s.next_id == 2,
            (spec_lookup(s.entries@, "input"@) matches Some(b) && b is DynImage && b.id() == 0
                && b.bytes() == zero_seq((width * height * 3) as nat)),
            (spec_lookup(s.entries@, "output"@) matches Some(b) && b is DynImage && b.id() == 1
                && b.bytes() == zero_seq((width * height * 3) as nat)),
            forall|n: Seq<char>| !is_reserved(n) ==> spec_lookup(s.entries@, n) is None,
    {
        let len = width * height * 3;
        let mut entries: Vec<Entry> = Vec::new();
        entries.push(
            Entry { name: "input".to_owned(), buff: Buff::DynImage { id: 0, data: zero_bytes(len) } },
        );
        entries.push(
            Entry {
                name: "output".to_owned(),
                buff: Buff::DynImage { id: 1, data: zero_bytes(len) },
            },
        );
        let s = CScope { entries, width, height, next_id: 2 };
        proof {
            reveal_strlit("input");
            reveal_strlit("output");
            assert(("input"@).len() == 5);
            assert(("output"@).len() == 6);
            assert(s.entries@[0].name@ == "input"@);
            assert(s.entries@[1].name@ == "output"@);
            assert(names_unique(s.entries@));
            lemma_find_name_unique(s.entries@, "input"@, 0);
            lemma_find_name_unique(s.entries@, "output"@, 1);
            assert forall|n: Seq<char>| !is_reserved(n) implies spec_lookup(s.entries@, n)
                is None by {
                lemma_find_name(s.entries@, n);
                let r = find_name(s.entries@, n);
                if r >= 0 {
                    assert(r == 0 || r == 1);
                }
            }
        }
        s
    }

    /// Allocates an integer device array sized to `data`, uploads the values,
    /// and stores it under `name`, overwriting any prior non-reserved entry of
    /// that name. Creating a buffer under a reserved key is refused.
    pub fn create_int_buffer(&mut self, name: String, data: Vec<i64>) -> (r: Result<
        BufferRhaiRef,
        CError,
    >)
        requires
            old(self).wf(),
            old(self).next_id < u64::MAX,
        ensures
            final(self).wf(),
            is_reserved(name@) ==> (r matches Err(e) && e == CError::ReservedName(name) && *final(self) == *old(self)),
            !is_reserved(name@) ==> ({
                &&& r matches Ok(b) && b.name@ == name@ && b.size == data@.len()
                &&& spec_lookup(final(self).entries@, name@) == Some(
                    Buff::IntBuffer { id: old(self).next_id, data },
                )
                &&& forall|n: Seq<char>|
                    n != name@ ==> spec_lookup(final(self).entries@, n) == spec_lookup(
                        old(self).entries@,
                        n,
                    )
                &&& final(self).next_id == old(self).next_id + 1
                &&& final(self).width == old(self).width
                &&& final(self).height == old(self).height
            }),
    {
        if reserved(name.as_str()) {
            return Err(CError::ReservedName(name));
        }
        let id = self.next_id;
        let size = data.len();
        let buf_ref = BufferRhaiRef { name: name.clone(), size };
        self.insert_buff(name, Buff::IntBuffer { id, data });
        self.next_id = id + 1;
        proof {
            lemma_wf_after_insert(*old(self), *self, name@);
        }
        Ok(buf_ref)
    }

    /// Allocates a float device array sized to `data` (each element the raw
    /// bit pattern of a 64-bit float), uploads the values, and stores it under
    /// `name`. Creating a buffer under a reserved key is refused.
    pub fn create_float_buffer(&mut self, name: String, data: Vec<u64>) -> (r: Result<
        BufferRhaiRef,
        CError,
    >)
        requires
            old(self).wf(),
            old(self).next_id < u64::MAX,
        ensures
            final(self).wf(),
            is_reserved(name@) ==> (r matches Err(e) && e == CError::ReservedName(name) && *final(self) == *old(self)),
            !is_reserved(name@) ==> ({
                &&& r matches Ok(b) && b.name@ == name@ && b.size == data@.len()
                &&& spec_lookup(final(self).entries@, name@) == Some(
                    Buff::FloatBuffer { id: old(self).next_id, data },
                )
                &&& forall|n: Seq<char>|
                    n != name@ ==> spec_lookup(final(self).entries@, n) == spec_lookup(
                        old(self).entries@,
                        n,
                    )
                &&& final(self).next_id == old(self).next_id + 1
                &&& final(self).width == old(self).width
                &&& final(self).height == old(self).height
            }),
    {
        if reserved(name.as_str()) {
            return Err(CError::ReservedName(name));
        }
        let id = self.next_id;
        let size = data.len();
        let buf_ref = BufferRhaiRef { name: name.clone(), size };
        self.insert_buff(name, Buff::FloatBuffer { id, data });
        self.next_id = id + 1;
        proof {
            lemma_wf_after_insert(*old(self), *self, name@);
        }
        Ok(buf_ref)
    }

    /// Allocates an RGB byte array sized to the registry's current frame
    /// dimensions and stores it under `name`. Creating a buffer under a
    /// reserved key is refused.
    pub fn create_dynimage(&mut self, name: String) -> (r: Result<(), CError>)
        requires
            old(self).wf(),
            old(self).next_id < u64::MAX,
        ensures
            final(self).wf(),
            is_reserved(name@) ==> (r matches Err(e) && e == CError::ReservedName(name) && *final(self) == *old(self)),
            !is_reserved(name@) ==> ({
                &&& r is Ok
                &&& (spec_lookup(final(self).entries@, name@) matches Some(b) && b is DynImage
                    && b.id() == old(self).next_id && b.bytes() == zero_seq(
                    (old(self).width * old(self).height * 3) as nat,
                ))
                &&& forall|n: Seq<char>|
                    n != name@ ==> spec_lookup(final(self).entries@, n) == spec_lookup(
                        old(self).entries@,
                        n,
                    )
                &&& final(self).next_id == old(self).next_id + 1
                &&& final(self).width == old(self).width
                &&& final(self).height == old(self).height
            }),
    {
        if reserved(name.as_str()) {
            return Err(CError::ReservedName(name));
        }
        let id = self.next_id;
        let size = self.width * self.height * 3;
        self.insert_buff(name, Buff::DynImage { id, data: zero_bytes(size) });
        self.next_id = id + 1;
        proof {
            lemma_wf_after_insert(*old(self), *self, name@);
        }
        Ok(())
    }

    /// Allocates an RGB byte array of fixed size `width * height * 3`,
    /// independent of the frame size, and stores it under `name`. Creating a
    /// buffer under a reserved key is refused.
    pub fn create_image(&mut self, name: String, width: usize, height: usize) -> (r: Result<
        ImageRhaiRef,
        CError,
    >)
        requires
            old(self).wf(),
            old(self).next_id < u64::MAX,
            (width as int) * (height as int) * 3 <= usize::MAX as int,
        ensures
            final(self).wf(),
            is_reserved(name@) ==> (r matches Err(e) && e == CError::ReservedName(name) && *final(self) == *old(self)),
            !is_reserved(name@) ==> ({
                &&& r matches Ok(ir) && ir.name@ == name@ && ir.width == width && ir.height
                    == height
                &&& (spec_lookup(final(self).entries@, name@) matches Some(b) && b matches
                    Buff::Image { id, width: w, height: h, data } && id == old(self).next_id && w
                    == width && h == height && data@ == zero_seq((width * height * 3) as nat))
                &&& forall|n: Seq<char>|
                    n != name@ ==> spec_lookup(final(self).entries@, n) == spec_lookup(
                        old(self).entries@,
                        n,
                    )
                &&& final(self).next_id == old(self).next_id + 1
                &&& final(self).width == old(self).width
                &&& final(self).height == old(self).height
            }),
    {
        if reserved(name.as_str()) {
            return Err(CError::ReservedName(name));
        }
        let id = self.next_id;
        let size = width * height * 3;
        let img_ref = ImageRhaiRef { name: name.clone(), width, height };
        self.insert_buff(name, Buff::Image { id, width, height, data: zero_bytes(size) });
        self.next_id = id + 1;
        proof {
            lemma_wf_after_insert(*old(self), *self, name@);
        }
        Ok(img_ref)
    }
}

/// Inserting a fresh, non-reserved handle whose shape fits the current frame
/// and whose id is the old `next_id` keeps the registry well-formed after
/// `next_id` is advanced.
proof fn lemma_wf_after_insert(pre: CScope, post: CScope, name: Seq<char>)
    requires
        pre.wf(),
        !is_reserved(name),
        names_unique(post.entries@),
        post.width == pre.width,
        post.height == pre.height,
        post.next_id == pre.next_id + 1,
        forall|n: Seq<char>|
            n != name ==> spec_lookup(post.entries@, n) == spec_lookup(pre.entries@, n),
        forall|i: int|
            0 <= i < post.entries@.len() ==> ((shape_ok(
                post.entries@[i].buff,
                post.width as int,
                post.height as int,
            ) && post.entries@[i].buff.id() == pre.next_id) || (0 <= i < pre.entries@.len()
                && post.entries@[i] == pre.entries@[i])),
    ensures
        post.wf(),
{
    assert(spec_lookup(post.entries@, "input"@) == spec_lookup(pre.entries@, "input"@));
    assert(spec_lookup(post.entries@, "output"@) == spec_lookup(pre.entries@, "output"@));
}

} // verus!

verus! {

impl CScope {
    /// Updates the current frame size. This is the one point where buffer
    /// shape changes after initialization: every `DynImage` entry (the
    /// reserved "input"/"output" slots included) is re-sized to the new
    /// `width * height * 3` bytes, zeroed. When the size is unchanged the
    /// registry is left exactly as it was, so buffers persist across frames
    /// of equal size.
    pub fn set_image_size(&mut self, width: usize, height: usize)
        requires
            old(self).wf(),
            width <= u32::MAX,
            height <= u32::MAX,
            (width as int) * (height as int) * 3 <= usize::MAX as int,
        ensures
            final(self).wf(),
            final(self).width == width,
            final(self).height == height,
            final(self).next_id == old(self).next_id,
            (width == old(self).width && height == old(self).height) ==> *final(self) == *old(
                self,
            ),
            final(self).entries@.len() == old(self).entries@.len(),
            forall|i: int|
                0 <= i < old(self).entries@.len() ==> final(self).entries@[i].name@ == old(
                    self,
                ).entries@[i].name@,
            forall|i: int|
                0 <= i < old(self).entries@.len() ==> (!(old(self).entries@[i].buff is DynImage)
                    ==> final(self).entries@[i] == old(self).entries@[i]),
            forall|i: int|
                0 <= i < old(self).entries@.len() ==> (old(self).entries@[i].buff is DynImage ==> (
                final(self).entries@[i].buff is DynImage && final(self).entries@[i].buff.id()
                    == old(self).entries@[i].buff.id() && final(self).entries@[i].buff.bytes() == (
                if width == old(self).width && height == old(self).height {
                    old(self).entries@[i].buff.bytes()
                } else {
                    zero_seq((width * height * 3) as nat)
                }))),
    {
        if width == self.width && height == self.height {
            return ;
        }
        self.width = width;
        self.height = height;
        let size = width * height * 3;
        let n = self.entries.len();
        let mut i: usize = 0;
        while i < n
            invariant
                i <= n,
                n == self.entries@.len(),
                n == old(self).entries@.len(),
                self.width == width,
                self.height == height,
                self.next_id == old(self).next_id,
                size == (width as int) * (height as int) * 3,
                forall|j: int| i <= j < n ==> self.entries@[j] == old(self).entries@[j],
                forall|j: int|
                    0 <= j < i ==> (!(old(self).entries@[j].buff is DynImage)
                        ==> self.entries@[j] == old(self).entries@[j]),
                forall|j: int|
                    0 <= j < i ==> self.entries@[j].name@ == old(self).entries@[j].name@,
                forall|j: int|
                    0 <= j < i ==> (old(self).entries@[j].buff is DynImage ==> (
                    self.entries@[j].buff is DynImage && self.entries@[j].buff.id() == old(
                        self,
                    ).entries@[j].buff.id() && self.entries@[j].buff.bytes() == zero_seq(
                        size as nat,
                    ))),
            decreases n - i,
        {
            let dyn_id = match &self.entries[i].buff {
                Buff::DynImage { id, .. } => Some(*id),
                _ => None,
            };
            if let Some(id) = dyn_id {
                let e = &mut self.entries[i];
                e.buff = Buff::DynImage { id, data: zero_bytes(size) };
            }
            i += 1;
        }
        proof {
            lemma_wf_after_resize(*old(self), *self);
        }
    }
}

/// Re-sizing every dynamic image to the new frame dimensions keeps the
/// registry well-formed.
proof fn lemma_wf_after_resize(pre: CScope, post: CScope)
    requires
        pre.wf(),
        post.width <= u32::MAX,
        post.height <= u32::MAX,
        (post.width as int) * (post.height as int) * 3 <= usize::MAX as int,
        post.next_id == pre.next_id,
        post.entries@.len() == pre.entries@.len(),
        forall|j: int|
            0 <= j < pre.entries@.len() ==> post.entries@[j].name@ == pre.entries@[j].name@,
        forall|j: int|
            0 <= j < pre.entries@.len() ==> (!(pre.entries@[j].buff is DynImage)
                ==> post.entries@[j] == pre.entries@[j]),
        forall|j: int|
            0 <= j < pre.entries@.len() ==> (pre.entries@[j].buff is DynImage ==> (
            post.entries@[j].buff is DynImage && post.entries@[j].buff.id()
                == pre.entries@[j].buff.id() && post.entries@[j].buff.bytes() == zero_seq(
                ((post.width as int) * (post.height as int) * 3) as nat,
            ))),
    ensures
        post.wf(),
{
    assert(names_unique(post.entries@));
    lemma_find_name_same_names(pre.entries@, post.entries@, "input"@);
    lemma_find_name_same_names(pre.entries@, post.entries@, "output"@);
    lemma_find_name(pre.entries@, "input"@);
    lemma_find_name(pre.entries@, "output"@);
    assert forall|i: int| 0 <= i < post.entries@.len() implies shape_ok(
        post.entries@[i].buff,
        post.width as int,
        post.height as int,
    ) by {
        if pre.entries@[i].buff is DynImage {
            assert(post.entries@[i].buff.bytes() == zero_seq(
                ((post.width as int) * (post.height as int) * 3) as nat,
            ));
        } else {
            assert(post.entries@[i] == pre.entries@[i]);
            assert(shape_ok(pre.entries@[i].buff, pre.width as int, pre.height as int));
        }
    }
    assert forall|i: int| 0 <= i < post.entries@.len() implies post.entries@[i].buff.id()
        < post.next_id by {
        if pre.entries@[i].buff is DynImage {
        } else {
            assert(post.entries@[i] == pre.entries@[i]);
        }
    }
}

} // verus!

verus! {

/// One scripting-scope binding: what the executor pushes into the per-frame
/// script scope for a registry entry.
#[derive(Debug, Clone, PartialEq, Eq)]
pub enum ScopeVar {
    /// A scalar-buffer reference, bound under its registry name.
    Buf(BufferRhaiRef),
    /// An image reference, bound under its registry name.
    Img(ImageRhaiRef),
}

/// The scope binding a registry entry contributes: scalar buffers carry their
/// element count; dynamic images carry the current frame dimensions `(w, h)`;
/// fixed images carry their own.
pub open spec fn spec_scope_var(e: Entry, w: usize, h: usize) -> ScopeVar {
    match e.buff {
        Buff::IntBuffer { data, .. } => ScopeVar::Buf(
            BufferRhaiRef { name: e.name, size: data@.len() as usize },
        ),
        Buff::FloatBuffer { data, .. } => ScopeVar::Buf(
            BufferRhaiRef { name: e.name, size: data@.len() as usize },
        ),
        Buff::DynImage { .. } => ScopeVar::Img(ImageRhaiRef { name: e.name, width: w, height: h }),
        Buff::Image { width, height, .. } => ScopeVar::Img(
            ImageRhaiRef { name: e.name, width, height },
        ),
    }
}

impl CScope {
    /// Builds the per-frame scripting scope: one reference per registry
    /// entry, in registry order, carrying the shape metadata current at this
    /// moment.
    pub fn create_rhai_scope(&self) -> (r: Vec<ScopeVar>)
        ensures
            r@.len() == self.entries@.len(),
            forall|i: int|
                0 <= i < r@.len() ==> r@[i] == spec_scope_var(
                    self.entries@[i],
                    self.width,
                    self.height,
                ),
    {
        let mut r: Vec<ScopeVar> = Vec::new();
        let mut i: usize = 0;
        while i < self.entries.len()
            invariant
                i <= self.entries@.len(),
                r@.len() == i,
                forall|j: int|
                    0 <= j < i ==> r@[j] == spec_scope_var(
                        self.entries@[j],
                        self.width,
                        self.height,
                    ),
            decreases self.entries@.len() - i,
        {
            let e = &self.entries[i];
            let var = match &e.buff {
                Buff::IntBuffer { data, .. } => ScopeVar::Buf(
                    BufferRhaiRef { name: e.name.clone(), size: data.len() },
                ),
                Buff::FloatBuffer { data, .. } => ScopeVar::Buf(
                    BufferRhaiRef { name: e.name.clone(), size: data.len() },
                ),
                Buff::DynImage { .. } => ScopeVar::Img(
                    ImageRhaiRef { name: e.name.clone(), width: self.width, height: self.height },
                ),
                Buff::Image { width, height, .. } => ScopeVar::Img(
                    ImageRhaiRef { name: e.name.clone(), width: *width, height: *height },
                ),
            };
            r.push(var);
            i += 1;
        }
        r
    }
}

} // verus!
