//! The trace filter: computes the contiguous range of interesting frames —
//! everything after the envelope's own capture machinery and before the
//! language runtime's startup code.

use vstd::prelude::*;

verus! {

use crate::frame::Frame;
use crate::frame::spec_is_mayerror_code;
use crate::frame::spec_is_runtime_init_code;

/// A half-open range `[start, end)` over the 1-based frame indices of a
/// captured trace; `end == usize::MAX` stands for "keep to the last frame".
pub struct FilterRange {
    pub start: usize,
    pub end: usize,
}

/// The 0-based position of the last envelope-internal frame of `s`, or `-1`
/// when there is none.
pub open spec fn last_internal(s: Seq<Frame>) -> int
    decreases s.len(),
{
    if s.len() == 0 {
        -1
    } else if spec_is_mayerror_code(s.last()) {
        s.len() - 1
    } else {
        last_internal(s.drop_last())
    }
}

/// The 0-based position of the first runtime-startup frame of `s`, or
/// `s.len()` when there is none.
pub open spec fn first_runtime_init(s: Seq<Frame>) -> int
    decreases s.len(),
{
    if s.len() == 0 {
        0
    } else if spec_is_runtime_init_code(s[0]) {
        0
    } else {
        1 + first_runtime_init(s.drop_first())
    }
}

/// The first 1-based frame index kept: two past the last envelope-internal
/// frame (dropping that frame and the conversion call site above it), or 1
/// when no frame is internal.
pub open spec fn spec_start(s: Seq<Frame>) -> int {
    if last_internal(s) >= 0 {
        last_internal(s) + 3
    } else {
        1
    }
}

/// The first 1-based frame index dropped at the outer end: the index of the
/// first runtime-startup frame, or `usize::MAX` when there is none.
pub open spec fn spec_end(s: Seq<Frame>) -> int {
    if first_runtime_init(s) < s.len() {
        first_runtime_init(s) + 1
    } else {
        usize::MAX as int
    }
}

/// True when a frame with 1-based index `n` falls in the kept range of `s`.
pub open spec fn keep_frame(s: Seq<Frame>, f: Frame) -> bool {
    spec_start(s) <= f.n < spec_end(s)
}

/// `last_internal` is pinned by its witness: an internal frame at `j` with no
/// internal frame after it.
proof fn lemma_last_internal_is(s: Seq<Frame>, j: int)
    requires
        0 <= j < s.len(),
        spec_is_mayerror_code(s[j]),
        forall|i: int| j < i < s.len() ==> !spec_is_mayerror_code(s[i]),
    ensures
        last_internal(s) == j,
    decreases s.len(),
{
    if j == s.len() - 1 {
    } else {
        assert(!spec_is_mayerror_code(s.last()));
        let t = s.drop_last();
        assert(t[j] == s[j]);
        assert(forall|i: int| j < i < t.len() ==> t[i] == s[i]);
        lemma_last_internal_is(t, j);
    }
}

/// With no internal frame at all, `last_internal` is `-1`.
proof fn lemma_last_internal_none(s: Seq<Frame>)
    requires
        forall|i: int| 0 <= i < s.len() ==> !spec_is_mayerror_code(s[i]),
    ensures
        last_internal(s) == -1,
    decreases s.len(),
{
    if s.len() > 0 {
        let t = s.drop_last();
        assert(forall|i: int| 0 <= i < t.len() ==> t[i] == s[i]);
        lemma_last_internal_none(t);
    }
}

/// `first_runtime_init` is pinned by its witness: a runtime-startup frame at
/// `k` with none before it.
proof fn lemma_first_runtime_init_is(s: Seq<Frame>, k: int)
    requires
        0 <= k < s.len(),
        spec_is_runtime_init_code(s[k]),
        forall|i: int| 0 <= i < k ==> !spec_is_runtime_init_code(s[i]),
    ensures
        first_runtime_init(s) == k,
    decreases s.len(),
{
    if k == 0 {
    } else {
        let t = s.drop_first();
        assert(forall|i: int| 0 <= i < t.len() ==> t[i] == s[i + 1]);
        lemma_first_runtime_init_is(t, k - 1);
    }
}

/// With no runtime-startup frame at all, `first_runtime_init` is `s.len()`.
proof fn lemma_first_runtime_init_none(s: Seq<Frame>)
    requires
        forall|i: int| 0 <= i < s.len() ==> !spec_is_runtime_init_code(s[i]),
    ensures
        first_runtime_init(s) == s.len(),
    decreases s.len(),
{
    if s.len() > 0 {
        let t = s.drop_first();
        assert(forall|i: int| 0 <= i < t.len() ==> t[i] == s[i + 1]);
        lemma_first_runtime_init_none(t);
    }
}

/// A trace with no envelope-internal and no runtime-startup frame filters to
/// the full range: every frame is kept.
pub proof fn lemma_filter_range_clean(s: Seq<Frame>)
    requires
        forall|i: int| 0 <= i < s.len() ==> !spec_is_mayerror_code(s[i]),
        forall|i: int| 0 <= i < s.len() ==> !spec_is_runtime_init_code(s[i]),
    ensures
        spec_start(s) == 1,
        spec_end(s) == usize::MAX,
{
    lemma_last_internal_none(s);
    lemma_first_runtime_init_none(s);
}

/// Computes the kept range of frame indices for `frames`: past the deepest
/// envelope-internal frame and its call site at the inner end, up to the
/// first runtime-startup frame at the outer end.
pub fn filter_range(frames: &Vec<Frame>) -> (r: FilterRange)
    requires
        frames@.len() <= usize::MAX - 3,
    ensures
        r.start == spec_start(frames@),
        r.end == spec_end(frames@),
{
    let len = frames.len();
    let mut start: usize = 1;
    let mut j: usize = len;
    let mut found_internal = false;
    while j > 0 && !found_internal
        invariant
            len == frames@.len(),
            len <= usize::MAX - 3,
            j <= len,
            !found_internal ==> forall|i: int|
                j <= i < len ==> !spec_is_mayerror_code(frames@[i]),
            found_internal ==> j < len && spec_is_mayerror_code(frames@[j as int]) && start == j
                + 3,
            found_internal ==> forall|i: int| j < i < len ==> !spec_is_mayerror_code(frames@[i]),
            !found_internal ==> start == 1,
        decreases j + (if found_internal { 0int } else { 1int }),
    {
        j -= 1;
        if frames[j].is_mayerror_code() {
            found_internal = true;
            start = j + 3;
        }
    }
    proof {
        if found_internal {
            lemma_last_internal_is(frames@, j as int);
        } else {
            lemma_last_internal_none(frames@);
        }
    }
    let mut end: usize = usize::MAX;
    let mut k: usize = 0;
    let mut found_runtime = false;
    while k < len && !found_runtime
        invariant
            len == frames@.len(),
            len <= usize::MAX - 3,
            k <= len,
            forall|i: int| 0 <= i < k ==> !spec_is_runtime_init_code(frames@[i]),
            found_runtime ==> k < len && spec_is_runtime_init_code(frames@[k as int]) && end == k
                + 1,
            !found_runtime ==> end == usize::MAX,
        decreases len - k + (if found_runtime { 0int } else { 1int }),
    {
        if frames[k].is_runtime_init_code() {
            found_runtime = true;
            end = k + 1;
        } else {
            k += 1;
        }
    }
    proof {
        if found_runtime {
            lemma_first_runtime_init_is(frames@, k as int);
        } else {
            lemma_first_runtime_init_none(frames@);
        }
    }
    FilterRange { start, end }
}

/// Drops from `frames` every frame outside the kept range: the inner
/// envelope machinery and the outer runtime startup code.
pub fn filter_frames(frames: &mut Vec<Frame>)
    requires
        old(frames)@.len() <= usize::MAX - 3,
    ensures
        final(frames)@ == old(frames)@.filter(|f: Frame| keep_frame(old(frames)@, f)),
{
    let ghost orig = frames@;
    let r = filter_range(frames);
    let mut out: Vec<Frame> = Vec::new();
    let mut i: usize = 0;
    proof {
        reveal(Seq::filter);
        assert(orig.subrange(0, 0) =~= Seq::<Frame>::empty());
    }
    while i < frames.len()
        invariant
            frames@ == orig,
            orig.len() <= usize::MAX - 3,
            i <= orig.len(),
            r.start == spec_start(orig),
            r.end == spec_end(orig),
            out@ == orig.subrange(0, i as int).filter(|f: Frame| keep_frame(orig, f)),
        decreases orig.len() - i,
    {
        let f = &frames[i];
        if r.start <= f.n && f.n < r.end {
            out.push(f.clone());
        }
        proof {
            reveal(Seq::filter);
            assert(orig.subrange(0, i + 1).drop_last() =~= orig.subrange(0, i as int));
            assert(orig.subrange(0, i + 1).last() == orig[i as int]);
        }
        i += 1;
    }
    proof {
        assert(orig.subrange(0, orig.len() as int) =~= orig);
    }
    *frames = out;
}

} // verus!
