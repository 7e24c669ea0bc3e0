//! The size of the surface that the magnifier draws on.

use vstd::prelude::*;

verus! {

/// A width and a height.
pub type Size = (u32, u32);

/// An extent that an output reports; negative ones count as none.
pub open spec fn extent(v: i32) -> u32 {
    if v < 0 {
        0
    } else {
        v as u32
    }
}

fn not_negative(v: i32) -> (r: u32)
    ensures
        r == extent(v),
{
    if v < 0 {
        0
    } else {
        v as u32
    }
}

/// The first size that is known, at or after position `from`.
pub open spec fn first_known(sizes: Seq<Option<(i32, i32)>>, from: int) -> Option<Size>
    decreases sizes.len() - from,
{
    if from < 0 || from >= sizes.len() {
        None
    } else {
        match sizes[from] {
            Some((w, h)) => Some((extent(w), extent(h))),
            None => first_known(sizes, from + 1),
        }
    }
}

/// The size of the output: of the one that the surface is on where it is known,
/// else of the first output whose size is.
pub open spec fn output_size(
    current: Option<(i32, i32)>,
    outputs: Seq<Option<(i32, i32)>>,
) -> Option<Size> {
    match current {
        Some((w, h)) => Some((extent(w), extent(h))),
        None => first_known(outputs, 0),
    }
}

pub fn output_logical_size(current: Option<(i32, i32)>, outputs: &Vec<Option<(i32, i32)>>) -> (r:
    Option<Size>)
    ensures
        r == output_size(current, outputs@),
{
    if let Some((w, h)) = current {
        return Some((not_negative(w), not_negative(h)));
    }
    let mut i: usize = 0;
    while i < outputs.len()
        invariant
            i <= outputs@.len(),
            current is None,
            first_known(outputs@, 0) == first_known(outputs@, i as int),
        decreases outputs@.len() - i,
    {
        if let Some((w, h)) = outputs[i] {
            return Some((not_negative(w), not_negative(h)));
        }
        i += 1;
    }
    None
}

/// The size after the compositor offered one: an extent of zero leaves the
/// choice, and the current one stays.
pub open spec fn offered_size(current: Size, offered: Size) -> Size {
    (
        if offered.0 == 0 {
            current.0
        } else {
            offered.0
        },
        if offered.1 == 0 {
            current.1
        } else {
            offered.1
        },
    )
}

/// The size to draw at once the compositor offered one, and whether it has to be
/// asked for: the whole output where its size is known, else what was offered.
pub fn configured_size(current: Size, offered: Size, output: Option<Size>) -> (r: (Size, bool))
    ensures
        r.0 == (match output {
            Some(whole) => whole,
            None => offered_size(current, offered),
        }),
        r.1 == (r.0 != offered_size(current, offered)),
{
    let w: u32 = if offered.0 == 0 { current.0 } else { offered.0 };
    let h: u32 = if offered.1 == 0 { current.1 } else { offered.1 };
    match output {
        Some((ow, oh)) => ((ow, oh), ow != w || oh != h),
        None => ((w, h), false),
    }
}

/// The output that the surface is on comes before all others.
pub proof fn own_output_counts_first(
    current: Option<(i32, i32)>,
    outputs: Seq<Option<(i32, i32)>>,
    others: Seq<Option<(i32, i32)>>,
)
    requires
        current is Some,
    ensures
        output_size(current, outputs) == output_size(current, others),
{
}

/// The size of the output is that of the one the surface is on, or else of the
/// first one whose size is known; an extent below zero counts as none.
pub proof fn first_known_output_counts(
    current: Option<(i32, i32)>,
    outputs: Seq<Option<(i32, i32)>>,
    i: int,
)
    requires
        0 <= i < outputs.len(),
        forall|j: int| 0 <= j < i ==> (#[trigger] outputs[j]) is None,
    ensures
        current matches Some((w, h)) ==> 0 <= w && 0 <= h ==> output_size(current, outputs) == Some(
            (w as u32, h as u32),
        ),
        current is None ==> (outputs[i] matches Some((w, h)) ==> 0 <= w && 0 <= h ==> output_size(
            current,
            outputs,
        ) == Some((w as u32, h as u32))),
        current matches Some((w, h)) ==> w < 0 && h < 0 ==> output_size(current, outputs) == Some(
            (0u32, 0u32),
        ),
{
    lemma_skips_unknown(outputs, 0, i);
}

proof fn lemma_skips_unknown(sizes: Seq<Option<(i32, i32)>>, from: int, i: int)
    requires
        0 <= from <= i < sizes.len(),
        forall|j: int| from <= j < i ==> (#[trigger] sizes[j]) is None,
    ensures
        first_known(sizes, from) == first_known(sizes, i),
    decreases i - from,
{
    if from < i {
        assert(sizes[from] is None);
        lemma_skips_unknown(sizes, from + 1, i);
    }
}

/// Where no output has a known size there is none.
pub proof fn unknown_outputs_have_no_size(outputs: Seq<Option<(i32, i32)>>)
    requires
        forall|j: int| 0 <= j < outputs.len() ==> (#[trigger] outputs[j]) is None,
    ensures
        output_size(None, outputs) is None,
{
    if outputs.len() > 0 {
        let last = outputs.len() - 1;
        lemma_skips_unknown(outputs, 0, last);
        assert(outputs[last] is None);
        assert(first_known(outputs, last) == first_known(outputs, last + 1));
        assert(first_known(outputs, last + 1) is None);
    }
}

/// An offered extent is taken, and one of zero leaves the one there is.
pub proof fn offers_of_zero_change_nothing(current: Size, offered: Size)
    ensures
        offered.0 != 0 ==> offered_size(current, offered).0 == offered.0,
        offered.1 != 0 ==> offered_size(current, offered).1 == offered.1,
        offered.0 == 0 ==> offered_size(current, offered).0 == current.0,
        offered.1 == 0 ==> offered_size(current, offered).1 == current.1,
{
}

} // verus!
