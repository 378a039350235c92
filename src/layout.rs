//! Intrinsic sizing of the control from its measured content.
use vstd::prelude::*;

verus! {

/// Width used when there is nothing to measure.
pub const FALLBACK_WIDTH: u32 = 100;

/// The largest element of a non-empty sequence (0 for an empty one).
pub open spec fn seq_max(s: Seq<u32>) -> u32
    decreases s.len(),
{
    if s.len() == 0 {
        0
    } else if s.len() == 1 {
        s[0]
    } else {
        let m = seq_max(s.drop_last());
        if s.last() > m {
            s.last()
        } else {
            m
        }
    }
}

/// Every measured label: the options' widths, then the placeholder's if any.
pub open spec fn measured(widths: Seq<u32>, placeholder: Option<u32>) -> Seq<u32> {
    match placeholder {
        Some(p) => widths.push(p),
        None => widths,
    }
}

/// The widest measured label, or the fallback when nothing was measured.
pub open spec fn content_width_spec(widths: Seq<u32>, placeholder: Option<u32>) -> u32 {
    let all = measured(widths, placeholder);
    if all.len() == 0 {
        FALLBACK_WIDTH
    } else {
        seq_max(all)
    }
}

/// `seq_max` bounds every element and is one of them.
pub proof fn lemma_seq_max(s: Seq<u32>)
    requires
        s.len() > 0,
    ensures
        forall|i: int| 0 <= i < s.len() ==> s[i] <= seq_max(s),
        exists|i: int| 0 <= i < s.len() && s[i] == seq_max(s),
    decreases s.len(),
{
    if s.len() > 1 {
        let t = s.drop_last();
        lemma_seq_max(t);
        let w = choose|i: int| 0 <= i < t.len() && t[i] == seq_max(t);
        assert forall|i: int| 0 <= i < s.len() implies s[i] <= seq_max(s) by {
            if i < s.len() - 1 {
                assert(s[i] == t[i]);
            }
        }
        if s.last() <= seq_max(t) {
            assert(s[w] == t[w]);
        } else {
            assert(s[s.len() - 1] == seq_max(s));
        }
    } else {
        assert(s[0] == seq_max(s));
    }
}

/// Width of the widest of the options' measured widths and the placeholder's,
/// or `FALLBACK_WIDTH` when there is neither.
pub fn content_width(widths: &Vec<u32>, placeholder: Option<u32>) -> (r: u32)
    ensures
        r == content_width_spec(widths@, placeholder),
        forall|i: int| 0 <= i < widths@.len() ==> widths@[i] <= r,
        placeholder matches Some(p) ==> p <= r,
        widths@.len() == 0 && placeholder.is_none() ==> r == FALLBACK_WIDTH,
{
    let mut best: u32 = 0;
    let mut i: usize = 0;
    while i < widths.len()
        invariant
            i <= widths@.len(),
            i > 0 ==> best == seq_max(widths@.subrange(0, i as int)),
        decreases widths.len() - i,
    {
        let w = widths[i];
        proof {
            let s = widths@.subrange(0, i as int + 1);
            assert(s.drop_last() =~= widths@.subrange(0, i as int));
        }
        if i == 0 || w > best {
            best = w;
        }
        i = i + 1;
    }
    proof {
        assert(widths@.subrange(0, widths@.len() as int) =~= widths@);
    }
    let r = match placeholder {
        Some(p) => {
            proof {
                assert(widths@.push(p).drop_last() =~= widths@);
            }
            if i == 0 || p > best {
                p
            } else {
                best
            }
        },
        None => {
            if i == 0 {
                FALLBACK_WIDTH
            } else {
                best
            }
        },
    };
    proof {
        let all = measured(widths@, placeholder);
        if all.len() > 0 {
            lemma_seq_max(all);
            assert forall|i: int| 0 <= i < widths@.len() implies widths@[i] <= r by {
                assert(all[i] == widths@[i]);
            }
            if let Some(p) = placeholder {
                assert(all[all.len() - 1] == p);
            }
        }
    }
    r
}

/// Space between the control's border and its content, in units.
#[derive(Clone, Copy, Debug, PartialEq, Eq, Structural)]
pub struct Padding {
    pub top: u16,
    pub right: u16,
    pub bottom: u16,
    pub left: u16,
}

impl Padding {
    /// The same padding on all four sides.
    pub fn uniform(units: u16) -> (r: Padding)
        ensures
            r.top == units && r.right == units && r.bottom == units && r.left == units,
    {
        Padding { top: units, right: units, bottom: units, left: units }
    }
}

/// Padding of a control that was not given one.
pub const DEFAULT_PADDING_UNITS: u16 = 5;

/// How the control's width is chosen.
#[derive(Clone, Copy, Debug, PartialEq, Eq, Structural)]
pub enum Length {
    /// As wide as its widest label.
    Shrink,
    /// As wide as the space available.
    Fill,
    /// A share of the space available.
    FillPortion(u16),
    /// A fixed number of units.
    Units(u16),
}

/// The size a control asks for before the host's limits are applied.
#[derive(Clone, Copy, Debug, PartialEq, Eq, Structural)]
pub struct IntrinsicSize {
    pub width: u64,
    pub height: u64,
}

/// Intrinsic size for a width policy: the widest label (only when shrinking to
/// content, else nothing), plus room for the arrow icon and the left padding;
/// as high as the text.
pub open spec fn intrinsic_spec(
    width: Length,
    padding: Padding,
    text_size: u16,
    widths: Seq<u32>,
    placeholder: Option<u32>,
) -> IntrinsicSize {
    let content: u64 = match width {
        Length::Shrink => content_width_spec(widths, placeholder) as u64,
        _ => 0,
    };
    IntrinsicSize {
        width: (content + text_size + padding.left) as u64,
        height: text_size as u64,
    }
}

/// Computes the intrinsic size of the control. `widths` holds the measured
/// width of each option's label and `placeholder` that of the placeholder; both
/// are read only when `width` is `Length::Shrink`.
pub fn layout(
    width: Length,
    padding: Padding,
    text_size: u16,
    widths: &Vec<u32>,
    placeholder: Option<u32>,
) -> (r: IntrinsicSize)
    ensures
        r == intrinsic_spec(width, padding, text_size, widths@, placeholder),
        width == Length::Shrink ==> forall|i: int|
            0 <= i < widths@.len() ==> r.width >= widths@[i] + text_size + padding.left,
        width == Length::Shrink ==> (placeholder matches Some(p) ==> r.width >= p + text_size
            + padding.left),
        width == Length::Shrink && widths@.len() == 0 && placeholder.is_none() ==> r.width
            == FALLBACK_WIDTH + text_size + padding.left,
        width != Length::Shrink ==> r.width == text_size + padding.left,
        r.height == text_size,
{
    let content: u64 = match width {
        Length::Shrink => content_width(widths, placeholder) as u64,
        _ => 0,
    };
    IntrinsicSize { width: content + text_size as u64 + padding.left as u64, height: text_size as u64 }
}

} // verus!
