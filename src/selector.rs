use vstd::prelude::*;
use vstd::std_specs::iter::IteratorSpec;
use crate::geometry::{Dim, Vec2};
use crate::particle::{kind_color, Color, ParticleKind, BACKGROUND_COLOR};

verus! {

pub const WINDOW_WIDTH: i32 = 1920;
pub const WINDOW_HEIGHT: i32 = 1080;
/// Space kept free along the window's edges.
pub const WINDOW_MARGIN: i32 = 40;

/// Font size of the control labels, in pixels.
pub const FONT_SIZE: i32 = 60;
pub const BOX_WIDTH: i32 = 240;
pub const BOX_HEIGHT: i32 = 80;
/// Horizontal gap between the panel's anchor and its first column, and
/// between columns.
pub const X_PADDING: i32 = 10;
/// Vertical gap between two controls of a column.
pub const Y_PADDING: i32 = 15;
/// The most controls one grid can lay out.
pub const MAX_CONTROLS: usize = 1_000_000;

/// Why a control cannot show its label.
#[derive(Clone, Copy, Debug, PartialEq, Eq, Structural)]
pub enum ConfigError {
    /// The box is not wider than the label.
    LabelTooWide,
    /// The box is not taller than the font.
    LabelTooTall,
}

/// How a control is drawn: filled in its kind's colour with the label in the
/// background colour when its kind is the selected one, outlined in its
/// kind's colour with the label in that colour otherwise.
#[derive(Clone, Copy, Debug, PartialEq, Eq, Structural)]
pub struct ControlStyle {
    pub filled: bool,
    pub box_color: Color,
    pub text_color: Color,
}

/// A clickable control that selects one particle kind.
#[derive(Clone, Copy, Debug, PartialEq, Eq, Structural)]
pub struct ParticleSelector {
    pub dim: Dim,
    pub kind: ParticleKind,
}

pub open spec fn control_style(kind: ParticleKind, selected: ParticleKind) -> ControlStyle {
    if kind == selected {
        ControlStyle { filled: true, box_color: kind_color(kind), text_color: BACKGROUND_COLOR }
    } else {
        ControlStyle { filled: false, box_color: kind_color(kind), text_color: kind_color(kind) }
    }
}

impl ParticleSelector {
    pub fn new(x: i32, y: i32, kind: ParticleKind) -> (r: ParticleSelector)
        ensures
            r == (ParticleSelector {
                dim: Dim { x, y, width: BOX_WIDTH, height: BOX_HEIGHT },
                kind,
            }),
    {
        ParticleSelector { kind, dim: Dim { x, y, width: BOX_WIDTH, height: BOX_HEIGHT } }
    }

    pub fn in_boundary(&self, pos: Vec2) -> (r: bool)
        ensures
            r == self.dim.contains(pos),
    {
        self.dim.in_boundary(pos)
    }

    pub fn style(&self, selected: ParticleKind) -> (r: ControlStyle)
        ensures
            r == control_style(self.kind, selected),
    {
        if self.kind == selected {
            ControlStyle { filled: true, box_color: self.kind.color(), text_color: BACKGROUND_COLOR }
        } else {
            ControlStyle { filled: false, box_color: self.kind.color(), text_color: self.kind.color() }
        }
    }

    /// Where a label `text_width` pixels wide starts so that it is centred in
    /// the box; an error when the box is not wider than the label, or else
    /// not taller than the font.
    pub fn label_position(&self, text_width: i32) -> (r: Result<(i32, i32), ConfigError>)
        requires
            self.dim.wf(),
            text_width >= 0,
        ensures
            self.dim.width <= text_width ==> r == Err::<(i32, i32), ConfigError>(
                ConfigError::LabelTooWide,
            ),
            self.dim.width > text_width && self.dim.height <= FONT_SIZE ==> r == Err::<
                (i32, i32),
                ConfigError,
            >(ConfigError::LabelTooTall),
            self.dim.width > text_width && self.dim.height > FONT_SIZE ==> r == Ok::<
                (i32, i32),
                ConfigError,
            >(
                (
                    (self.dim.x + (self.dim.width - text_width) / 2) as i32,
                    (self.dim.y + (self.dim.height - FONT_SIZE) / 2) as i32,
                ),
            ),
    {
        if self.dim.width <= text_width {
            return Err(ConfigError::LabelTooWide);
        }
        if self.dim.height <= FONT_SIZE {
            return Err(ConfigError::LabelTooTall);
        }
        let width_diff = (self.dim.width - text_width) / 2;
        let height_diff = (self.dim.height - FONT_SIZE) / 2;
        Ok((self.dim.x + width_diff, self.dim.y + height_diff))
    }
}

/// The kind of the first control, from index `i` on, whose box holds `pos`.
pub open spec fn hit_from(s: Seq<ParticleSelector>, pos: Vec2, i: int) -> Option<ParticleKind>
    decreases s.len() - i,
{
    if i < 0 || i >= s.len() {
        None
    } else if s[i].dim.contains(pos) {
        Some(s[i].kind)
    } else {
        hit_from(s, pos, i + 1)
    }
}

/// No point lies in the boxes of two different controls.
pub open spec fn non_overlapping(s: Seq<ParticleSelector>) -> bool {
    forall|a: int, b: int, p: Vec2|
        0 <= a < s.len() && 0 <= b < s.len() && a != b && #[trigger] s[a].dim.contains(p)
            ==> !#[trigger] s[b].dim.contains(p)
}

/// The top-left corner of control `n` of a grid whose panel is `dim`: the
/// controls fill a column downward from the panel's top, and a new column
/// starts once the next control would begin below the panel's height.
pub open spec fn cursor(dim: Dim, n: nat) -> (int, int)
    decreases n,
{
    if n == 0 {
        (dim.x as int, dim.y as int)
    } else {
        let prev = cursor(dim, (n - 1) as nat);
        let next_y = prev.1 + BOX_HEIGHT + Y_PADDING;
        if next_y > dim.height {
            (prev.0 + BOX_WIDTH + X_PADDING, dim.y as int)
        } else {
            (prev.0, next_y)
        }
    }
}

/// The panel of a grid anchored at `(x, y)`: it starts `X_PADDING` to the
/// right of the anchor and reaches to the window's margins.
pub open spec fn grid_dim(x: i32, y: i32) -> Dim {
    Dim {
        x: (x + X_PADDING) as i32,
        y,
        width: (WINDOW_WIDTH - x - X_PADDING - WINDOW_MARGIN) as i32,
        height: (WINDOW_HEIGHT - y - WINDOW_MARGIN) as i32,
    }
}

/// The anchors whose panel has a width and a height that are non-negative
/// `i32` values.
pub open spec fn valid_anchor(x: i32, y: i32) -> bool {
    &&& 0 <= WINDOW_WIDTH - x - X_PADDING - WINDOW_MARGIN <= i32::MAX
    &&& 0 <= WINDOW_HEIGHT - y - WINDOW_MARGIN <= i32::MAX
}

/// The control laid out at place `i` of a grid with panel `dim`.
pub open spec fn laid_out(dim: Dim, kind: ParticleKind, i: nat) -> ParticleSelector {
    ParticleSelector {
        dim: Dim {
            x: cursor(dim, i).0 as i32,
            y: cursor(dim, i).1 as i32,
            width: BOX_WIDTH,
            height: BOX_HEIGHT,
        },
        kind,
    }
}

proof fn lemma_cursor_bounds(dim: Dim, n: nat)
    ensures
        dim.x <= cursor(dim, n).0 <= dim.x + n * (BOX_WIDTH + X_PADDING),
        dim.y <= cursor(dim, n).1 <= dim.y + n * (BOX_HEIGHT + Y_PADDING),
    decreases n,
{
    if n > 0 {
        lemma_cursor_bounds(dim, (n - 1) as nat);
    }
}

/// A later control lies in a later column, or lower in the same column.
proof fn lemma_cursor_later(dim: Dim, i: nat, j: nat)
    requires
        i < j,
    ensures
        cursor(dim, j).0 >= cursor(dim, i).0 + BOX_WIDTH + X_PADDING || (cursor(dim, j).0
            == cursor(dim, i).0 && cursor(dim, j).1 >= cursor(dim, i).1 + BOX_HEIGHT
            + Y_PADDING),
    decreases j,
{
    if j > i + 1 {
        lemma_cursor_later(dim, i, (j - 1) as nat);
    }
}

/// Controls that stand at their places of a grid with panel `dim` do not
/// overlap.
proof fn lemma_layout_disjoint(dim: Dim, s: Seq<ParticleSelector>)
    requires
        s.len() <= MAX_CONTROLS,
        dim.x + MAX_CONTROLS * (BOX_WIDTH + X_PADDING) + BOX_WIDTH <= i32::MAX,
        dim.y + MAX_CONTROLS * (BOX_HEIGHT + Y_PADDING) + BOX_HEIGHT <= i32::MAX,
        i32::MIN <= dim.x,
        i32::MIN <= dim.y,
        forall|i: int| 0 <= i < s.len() ==> #[trigger] s[i] == laid_out(dim, s[i].kind, i as nat),
    ensures
        non_overlapping(s),
{
    assert forall|a: int, b: int, p: Vec2|
        0 <= a < s.len() && 0 <= b < s.len() && a != b && #[trigger] s[a].dim.contains(
            p,
        ) implies !#[trigger] s[b].dim.contains(p) by {
        let (i, j) = if a < b {
            (a, b)
        } else {
            (b, a)
        };
        lemma_cursor_bounds(dim, i as nat);
        lemma_cursor_bounds(dim, j as nat);
        assert(i * 250 <= 250_000_000 && j * 250 <= 250_000_000 && i * 95 <= 95_000_000 && j
            * 95 <= 95_000_000) by (nonlinear_arith)
            requires
                0 <= i < MAX_CONTROLS,
                0 <= j < MAX_CONTROLS,
        ;
        lemma_cursor_later(dim, i as nat, j as nat);
    }
}

/// A panel of selector controls, one per kind, in layout order.
pub struct SelectorGrid {
    pub dim: Dim,
    pub selectors: Vec<ParticleSelector>,
}

impl SelectorGrid {
    pub open spec fn wf(&self) -> bool {
        &&& self.dim.wf()
        &&& forall|i: int| 0 <= i < self.selectors.len() ==> (#[trigger] self.selectors[i]).dim.wf()
    }

    /// Lays out one control per entry of `kinds`, in order, in the panel
    /// anchored at `(x, y)`.
    pub fn new(x: i32, y: i32, kinds: Vec<ParticleKind>) -> (r: SelectorGrid)
        requires
            valid_anchor(x, y),
            kinds.len() <= MAX_CONTROLS,
        ensures
            r.wf(),
            r.dim == grid_dim(x, y),
            r.selectors.len() == kinds.len(),
            non_overlapping(r.selectors@),
            forall|i: int|
                0 <= i < kinds.len() ==> r.selectors[i] == laid_out(
                    grid_dim(x, y),
                    #[trigger] kinds[i],
                    i as nat,
                ),
    {
        let dim = Dim {
            x: x + X_PADDING,
            y,
            width: WINDOW_WIDTH - X_PADDING - WINDOW_MARGIN - x,
            height: WINDOW_HEIGHT - WINDOW_MARGIN - y,
        };
        let mut selectors: Vec<ParticleSelector> = Vec::with_capacity(kinds.len());
        let mut cx: i32 = dim.x;
        let mut cy: i32 = dim.y;
        let mut i: usize = 0;
        while i < kinds.len()
            invariant
                dim == grid_dim(x, y),
                valid_anchor(x, y),
                kinds.len() <= MAX_CONTROLS,
                0 <= i <= kinds.len(),
                selectors.len() == i,
                (cx as int, cy as int) == cursor(dim, i as nat),
                forall|j: int|
                    0 <= j < i ==> selectors[j] == laid_out(dim, #[trigger] kinds[j], j as nat),
                forall|j: int| 0 <= j < i ==> (#[trigger] selectors[j]).dim.wf(),
            decreases kinds.len() - i,
        {
            proof {
                lemma_cursor_bounds(dim, i as nat);
                lemma_cursor_bounds(dim, (i + 1) as nat);
                assert((i + 1) * 250 <= 250_000_000 && (i + 1) * 95 <= 95_000_000 && i * 250
                    <= 250_000_000 && i * 95 <= 95_000_000) by (nonlinear_arith)
                    requires
                        i < MAX_CONTROLS,
                ;
            }
            selectors.push(ParticleSelector::new(cx, cy, kinds[i]));
            let new_y = cy + BOX_HEIGHT + Y_PADDING;
            if new_y > dim.height {
                cx = cx + BOX_WIDTH + X_PADDING;
                cy = dim.y;
            } else {
                cy = new_y;
            }
            i = i + 1;
        }
        proof {
            assert forall|j: int| 0 <= j < selectors.len() implies #[trigger] selectors@[j]
                == laid_out(dim, selectors@[j].kind, j as nat) by {
                assert(selectors[j] == laid_out(dim, kinds[j], j as nat));
            }
            lemma_layout_disjoint(dim, selectors@);
        }
        SelectorGrid { dim, selectors }
    }

    /// The controls, in layout order.
    pub fn iter(&self) -> (r: std::slice::Iter<'_, ParticleSelector>)
        ensures
            r.remaining() == self.selectors@.as_ref(),
    {
        broadcast use vstd::std_specs::slice::axiom_spec_slice_iter;

        self.selectors.iter()
    }

    /// The kind of the first control, in layout order, whose box holds `pos`.
    pub fn hit_test(&self, pos: Vec2) -> (r: Option<ParticleKind>)
        ensures
            r == hit_from(self.selectors@, pos, 0),
    {
        let mut i: usize = 0;
        while i < self.selectors.len()
            invariant
                0 <= i <= self.selectors.len(),
                hit_from(self.selectors@, pos, 0) == hit_from(self.selectors@, pos, i as int),
            decreases self.selectors.len() - i,
        {
            if self.selectors[i].in_boundary(pos) {
                return Some(self.selectors[i].kind);
            }
            i = i + 1;
        }
        None
    }
}

proof fn lemma_hit_reaches(s: Seq<ParticleSelector>, pos: Vec2, i: int, k: int)
    requires
        non_overlapping(s),
        0 <= k <= i < s.len(),
        s[i].dim.contains(pos),
    ensures
        hit_from(s, pos, k) == Some(s[i].kind),
    decreases i - k,
{
    if k < i {
        assert(!s[k].dim.contains(pos));
        lemma_hit_reaches(s, pos, i, k + 1);
    }
}

proof fn lemma_miss_from(s: Seq<ParticleSelector>, pos: Vec2, k: int)
    requires
        0 <= k <= s.len(),
        forall|i: int| 0 <= i < s.len() ==> !(#[trigger] s[i].dim.contains(pos)),
    ensures
        hit_from(s, pos, k) == None::<ParticleKind>,
    decreases s.len() - k,
{
    if k < s.len() {
        lemma_miss_from(s, pos, k + 1);
    }
}

/// Among controls that do not overlap, a point inside control `i` selects
/// `i`'s kind, and never the kind of another control that differs from it.
pub proof fn lemma_hit_exclusive(s: Seq<ParticleSelector>, pos: Vec2, i: int)
    requires
        non_overlapping(s),
        0 <= i < s.len(),
        s[i].dim.contains(pos),
    ensures
        hit_from(s, pos, 0) == Some(s[i].kind),
        forall|j: int|
            0 <= j < s.len() && s[j].kind != s[i].kind ==> hit_from(s, pos, 0) != Some(
                #[trigger] s[j].kind,
            ),
{
    lemma_hit_reaches(s, pos, i, 0);
}

/// A point inside no control selects nothing.
pub proof fn lemma_hit_none(s: Seq<ParticleSelector>, pos: Vec2)
    requires
        forall|i: int| 0 <= i < s.len() ==> !(#[trigger] s[i].dim.contains(pos)),
    ensures
        hit_from(s, pos, 0) == None::<ParticleKind>,
{
    lemma_miss_from(s, pos, 0);
}

/// In a panel of exactly two controls that share no point, a point inside
/// one of them selects its kind and, where the two kinds differ, never the
/// other's; a point inside neither selects nothing.
pub proof fn lemma_two_controls_exclusive(s: Seq<ParticleSelector>, pos: Vec2)
    requires
        s.len() == 2,
        forall|p: Vec2| !(#[trigger] s[0].dim.contains(p) && s[1].dim.contains(p)),
    ensures
        s[0].dim.contains(pos) ==> hit_from(s, pos, 0) == Some(s[0].kind),
        s[1].dim.contains(pos) ==> hit_from(s, pos, 0) == Some(s[1].kind),
        s[0].dim.contains(pos) && s[0].kind != s[1].kind ==> hit_from(s, pos, 0) != Some(
            s[1].kind,
        ),
        s[1].dim.contains(pos) && s[0].kind != s[1].kind ==> hit_from(s, pos, 0) != Some(
            s[0].kind,
        ),
        !s[0].dim.contains(pos) && !s[1].dim.contains(pos) ==> hit_from(s, pos, 0) == None::<
            ParticleKind,
        >,
{
    assert(non_overlapping(s));
    if s[0].dim.contains(pos) {
        lemma_hit_exclusive(s, pos, 0);
    } else if s[1].dim.contains(pos) {
        lemma_hit_exclusive(s, pos, 1);
    } else {
        lemma_hit_none(s, pos);
    }
}

} // verus!
