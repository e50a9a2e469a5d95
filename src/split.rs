use crate::geometry::{horizontal_parts, lemma_part_bounds, lemma_parts_bounded, vertical_parts, Ratio, Rect};
use vstd::prelude::*;
use vstd::view::View as _;

verus! {

/// Opaque identifier of a view, assigned by the caller and compared by value.
#[derive(Clone, Copy, Debug, PartialEq, Eq, Structural)]
pub struct ViewHandle(pub u64);

/// A panel, with the rectangle that the last layout pass gave it.
#[derive(Clone, Copy, Debug, PartialEq, Eq, Structural)]
pub struct View {
    pub handle: ViewHandle,
    pub rect: Rect,
}

impl View {
    /// A view that no layout pass has placed yet.
    pub open spec fn unplaced(handle: ViewHandle) -> View {
        View { handle, rect: Rect::zero() }
    }

    pub(crate) fn new(view_handle: ViewHandle) -> (r: View)
        ensures
            r == View::unplaced(view_handle),
    {
        View { handle: view_handle, rect: Rect::default() }
    }
}

/// How a split shares its rectangle between its two sides.
#[derive(Clone, Copy, Debug, PartialEq, Eq, Structural)]
pub enum Direction {
    /// Left and right, the ratio giving the left side's share of the width.
    Vertical,
    /// Top and bottom, the ratio giving the top side's share of the height.
    Horizontal,
    /// No subdivision: both sides get the whole rectangle.
    Full,
}

/// The views that occupy one side of a split, in drawing order.
pub struct Container {
    pub views: Vec<View>,
}

impl Container {
    /// The handles of the views, in order.
    pub open spec fn handles(&self) -> Seq<ViewHandle> {
        self.views@.map_values(|v: View| v.handle)
    }

    /// Some view here has the handle `h`.
    pub open spec fn holds(&self, h: ViewHandle) -> bool {
        exists|i: int| 0 <= i < self.views@.len() && #[trigger] self.views@[i].handle == h
    }

    /// Every view here has the rectangle `rect`.
    pub open spec fn all_at(&self, rect: Rect) -> bool {
        forall|i: int| 0 <= i < self.views@.len() ==> #[trigger] self.views@[i].rect == rect
    }

    fn contains_handle(&self, h: ViewHandle) -> (r: bool)
        ensures
            r == self.holds(h),
    {
        let n = self.views.len();
        let mut i: usize = 0;
        while i < n
            invariant
                n == self.views@.len(),
                0 <= i <= n,
                forall|j: int| 0 <= j < i ==> #[trigger] self.views@[j].handle != h,
            decreases n - i,
        {
            if self.views[i].handle.0 == h.0 {
                return true;
            }
            i += 1;
        }
        false
    }

    /// Gives every view the rectangle `rect`, keeping the views and their order.
    fn place_all(&mut self, rect: Rect)
        ensures
            final(self).handles() == old(self).handles(),
            final(self).all_at(rect),
    {
        let n = self.views.len();
        let mut i: usize = 0;
        while i < n
            invariant
                n == self.views@.len(),
                n == old(self).views@.len(),
                0 <= i <= n,
                forall|j: int| 0 <= j < n ==> #[trigger] self.views@[j].handle == old(self).views@[j].handle,
                forall|j: int| 0 <= j < i ==> #[trigger] self.views@[j].rect == rect,
            decreases n - i,
        {
            let handle = self.views[i].handle;
            self.views.set(i, View { handle: handle, rect: rect });
            i += 1;
        }
        assert(self.handles() =~= old(self).handles());
    }
}

/// A node of the layout tree.
pub struct Split {
    /// The subtree on the left or top side.
    pub left: Option<Box<Split>>,
    /// The subtree on the right or bottom side.
    pub right: Option<Box<Split>>,
    /// The views on the left or top side.
    pub left_views: Container,
    /// The views on the right or bottom side.
    pub right_views: Container,
    /// The share of the rectangle given to the left or top side.
    pub ratio: Ratio,
    /// How the rectangle is shared between the two sides.
    pub direction: Direction,
}

/// The rectangles of the two sides of a split of `rect`.
pub open spec fn side_rects(rect: Rect, direction: Direction, ratio: Ratio) -> (Rect, Rect) {
    match direction {
        Direction::Vertical => vertical_parts(rect, ratio),
        Direction::Horizontal => horizontal_parts(rect, ratio),
        Direction::Full => (rect, rect),
    }
}

impl Split {
    /// Every ratio in the tree is a fraction between zero and one.
    pub open spec fn wf(&self) -> bool
        decreases self,
    {
        &&& self.ratio.wf()
        &&& match self.left {
            Some(c) => c.wf(),
            None => true,
        }
        &&& match self.right {
            Some(c) => c.wf(),
            None => true,
        }
    }

    /// Both sides already hold views, so a new view needs a deeper level.
    pub open spec fn is_full(&self) -> bool {
        self.left_views.views@.len() > 0 && self.right_views.views@.len() > 0
    }

    /// The views of the tree in drawing order: at each split the left views,
    /// the right views, then the left subtree and the right subtree.
    pub open spec fn views(&self) -> Seq<View>
        decreases self,
    {
        self.left_views.views@ + self.right_views.views@ + match self.left {
            Some(c) => c.views(),
            None => Seq::empty(),
        } + match self.right {
            Some(c) => c.views(),
            None => Seq::empty(),
        }
    }

    /// Some view of the tree has the handle `h`.
    pub open spec fn holds(&self, h: ViewHandle) -> bool
        decreases self,
    {
        ||| self.left_views.holds(h)
        ||| self.right_views.holds(h)
        ||| match self.left {
            Some(c) => c.holds(h),
            None => false,
        }
        ||| match self.right {
            Some(c) => c.holds(h),
            None => false,
        }
    }

    /// The two trees have the same splits, directions, ratios and handles in
    /// the same places; only the rectangles of the views may differ.
    pub open spec fn same_shape(&self, other: Split) -> bool
        decreases self,
    {
        &&& self.direction == other.direction
        &&& self.ratio == other.ratio
        &&& self.left_views.handles() == other.left_views.handles()
        &&& self.right_views.handles() == other.right_views.handles()
        &&& match self.left {
            Some(a) => match other.left {
                Some(b) => a.same_shape(*b),
                None => false,
            },
            None => other.left is None,
        }
        &&& match self.right {
            Some(a) => match other.right {
                Some(b) => a.same_shape(*b),
                None => false,
            },
            None => other.right is None,
        }
    }

    /// Every view has the rectangle that its place in the tree gives it when
    /// the root covers `rect`.
    pub open spec fn laid_out(&self, rect: Rect) -> bool
        decreases self,
    {
        let sides = side_rects(rect, self.direction, self.ratio);
        &&& self.left_views.all_at(sides.0)
        &&& self.right_views.all_at(sides.1)
        &&& match self.left {
            Some(c) => c.laid_out(sides.0),
            None => true,
        }
        &&& match self.right {
            Some(c) => c.laid_out(sides.1),
            None => true,
        }
    }

    /// `self` is `old` after `split_by_view_handle(direction, find, h)` found
    /// `find`: the first split that holds it in a container, searching left
    /// views, right views, left subtree, right subtree, grew on that side.
    pub open spec fn inserted_near(
        &self,
        old: Split,
        direction: Direction,
        find: ViewHandle,
        h: ViewHandle,
    ) -> bool
        decreases old,
    {
        if old.left_views.holds(find) {
            self.grown_left(old, direction, h)
        } else if old.right_views.holds(find) {
            self.grown_right(old, direction, h)
        } else {
            &&& self.direction == old.direction
            &&& self.ratio == old.ratio
            &&& self.left_views == old.left_views
            &&& self.right_views == old.right_views
            &&& match old.left {
                Some(ol) if ol.holds(find) => {
                    &&& self.right == old.right
                    &&& match self.left {
                        Some(nl) => nl.inserted_near(*ol, direction, find, h),
                        None => false,
                    }
                },
                _ => {
                    &&& self.left == old.left
                    &&& match old.right {
                        Some(or) => match self.right {
                            Some(nr) => nr.inserted_near(*or, direction, find, h),
                            None => false,
                        },
                        None => false,
                    }
                },
            }
        }
    }

    /// `self` is `old` after a new view `h` took the first empty side and the
    /// direction became `direction`; with no empty side only the direction changed.
    pub open spec fn filled_from(&self, old: Split, direction: Direction, h: ViewHandle) -> bool {
        &&& self.direction == direction
        &&& self.left == old.left
        &&& self.right == old.right
        &&& if old.left_views.views@.len() == 0 {
            &&& self.left_views.views@ =~= seq![View::unplaced(h)]
            &&& self.right_views == old.right_views
            &&& self.ratio == Ratio::spec_half()
        } else if old.right_views.views@.len() == 0 {
            &&& self.left_views == old.left_views
            &&& self.right_views.views@ =~= seq![View::unplaced(h)]
            &&& self.ratio == Ratio::spec_half()
        } else {
            &&& self.left_views == old.left_views
            &&& self.right_views == old.right_views
            &&& self.ratio == old.ratio
        }
    }

    /// `self` is `old` after `split_left(h, direction)`: the new view fills
    /// an empty side if there is one; otherwise the left side deepens into a
    /// new split whose left side holds the new view and whose right side holds
    /// the views that were on the left.
    pub open spec fn grown_left(&self, old: Split, direction: Direction, h: ViewHandle) -> bool {
        if !old.is_full() {
            self.filled_from(old, direction, h)
        } else {
            &&& self.direction == direction
            &&& self.ratio == old.ratio
            &&& self.right == old.right
            &&& self.right_views == old.right_views
            &&& self.left_views.views@.len() == 0
            &&& match self.left {
                Some(c) => {
                    &&& c.direction == direction
                    &&& c.ratio == Ratio::spec_half()
                    &&& c.left is None
                    &&& c.right is None
                    &&& c.left_views.views@ =~= seq![View::unplaced(h)]
                    &&& c.right_views.views@ == old.left_views.views@
                },
                None => false,
            }
        }
    }

    /// `self` is `old` after `split_right(h, direction)`: the mirror image of
    /// `grown_left`, the new view going to the right side of the new split.
    pub open spec fn grown_right(&self, old: Split, direction: Direction, h: ViewHandle) -> bool {
        if !old.is_full() {
            self.filled_from(old, direction, h)
        } else {
            &&& self.direction == direction
            &&& self.ratio == old.ratio
            &&& self.left == old.left
            &&& self.left_views == old.left_views
            &&& self.right_views.views@.len() == 0
            &&& match self.right {
                Some(c) => {
                    &&& c.direction == direction
                    &&& c.ratio == Ratio::spec_half()
                    &&& c.left is None
                    &&& c.right is None
                    &&& c.left_views.views@ == old.right_views.views@
                    &&& c.right_views.views@ =~= seq![View::unplaced(h)]
                },
                None => false,
            }
        }
    }

    pub fn new(direction: Direction) -> (r: Split)
        ensures
            r.left is None,
            r.right is None,
            r.left_views.views@.len() == 0,
            r.right_views.views@.len() == 0,
            r.ratio == Ratio::spec_zero(),
            r.direction == direction,
            r.wf(),
    {
        Split {
            left: None,
            right: None,
            left_views: Container { views: Vec::new() },
            right_views: Container { views: Vec::new() },
            ratio: Ratio::zero(),
            direction: direction,
        }
    }

    /// Sets the direction, then puts a new view `view_handle` on the first
    /// empty side, if there is one; tells whether there was.
    pub fn no_split(&mut self, direction: Direction, view_handle: ViewHandle) -> (r: bool)
        ensures
            r == !old(self).is_full(),
            final(self).filled_from(*old(self), direction, view_handle),
            old(self).wf() ==> final(self).wf(),
    {
        self.direction = direction;

        if self.left_views.views.len() == 0 {
            self.left_views.views.push(View::new(view_handle));
            self.ratio = Ratio::half();
            return true;
        }
        if self.right_views.views.len() == 0 {
            self.right_views.views.push(View::new(view_handle));
            self.ratio = Ratio::half();
            return true;
        }
        false
    }
    /// Adds a view at the left or top of this split, deepening the left side
    /// when both sides are taken.
    pub fn split_left(&mut self, view_handle: ViewHandle, direction: Direction)
        ensures
            final(self).grown_left(*old(self), direction, view_handle),
            old(self).wf() ==> final(self).wf(),
    {
        if self.no_split(direction, view_handle) {
            return;
        }
        let mut split = Split::new(direction);
        std::mem::swap(&mut split.right_views, &mut self.left_views);
        split.left_views.views.push(View::new(view_handle));
        split.ratio = Ratio::half();
        assert(split.wf());
        self.left = Some(Box::new(split));
    }

    /// Adds a view at the right or bottom of this split, deepening the right
    /// side when both sides are taken.
    pub fn split_right(&mut self, view_handle: ViewHandle, direction: Direction)
        ensures
            final(self).grown_right(*old(self), direction, view_handle),
            old(self).wf() ==> final(self).wf(),
    {
        if self.no_split(direction, view_handle) {
            return;
        }
        let mut split = Split::new(direction);
        std::mem::swap(&mut split.left_views, &mut self.right_views);
        split.right_views.views.push(View::new(view_handle));
        split.ratio = Ratio::half();
        assert(split.wf());
        self.right = Some(Box::new(split));
    }

    /// Cuts `rect` into a top part that takes `ratio` of its height and a
    /// bottom part that takes the rest.
    pub fn calc_horizontal_sizing(rect: Rect, ratio: Ratio) -> (r: (Rect, Rect))
        requires
            ratio.wf(),
            0 <= rect.height,
            rect.y + rect.height <= i32::MAX,
        ensures
            r == horizontal_parts(rect, ratio),
            r.0.height + r.1.height == rect.height,
            r.1.y == rect.y + r.0.height,
            r.0.x == rect.x && r.1.x == rect.x,
            r.0.width == rect.width && r.1.width == rect.width,
    {
        proof {
            lemma_part_bounds(rect.height as int, ratio);
            assert(rect.height as int * ratio.num as int <= i32::MAX as int * u32::MAX as int)
                by (nonlinear_arith)
                requires
                    0 <= rect.height <= i32::MAX,
                    ratio.num <= u32::MAX,
            ;
        }
        let h = (rect.height as i64 * ratio.num as i64 / ratio.den as i64) as i32;
        let top = Rect::new(rect.x, rect.y, rect.width, h);
        let bottom = Rect::new(rect.x, rect.y + h, rect.width, rect.height - h);
        (top, bottom)
    }

    /// Cuts `rect` into a left part that takes `ratio` of its width and a
    /// right part that takes the rest.
    pub fn calc_vertical_sizing(rect: Rect, ratio: Ratio) -> (r: (Rect, Rect))
        requires
            ratio.wf(),
            0 <= rect.width,
            rect.x + rect.width <= i32::MAX,
        ensures
            r == vertical_parts(rect, ratio),
            r.0.width + r.1.width == rect.width,
            r.1.x == rect.x + r.0.width,
            r.0.y == rect.y && r.1.y == rect.y,
            r.0.height == rect.height && r.1.height == rect.height,
    {
        proof {
            lemma_part_bounds(rect.width as int, ratio);
            assert(rect.width as int * ratio.num as int <= i32::MAX as int * u32::MAX as int)
                by (nonlinear_arith)
                requires
                    0 <= rect.width <= i32::MAX,
                    ratio.num <= u32::MAX,
            ;
        }
        let w = (rect.width as i64 * ratio.num as i64 / ratio.den as i64) as i32;
        let left = Rect::new(rect.x, rect.y, w, rect.height);
        let right = Rect::new(rect.x + w, rect.y, rect.width - w, rect.height);
        (left, right)
    }

    /// The rectangles of the two sides when `rect` is split along `direction`.
    pub fn layout(rect: Rect, direction: Direction, ratio: Ratio) -> (r: (Rect, Rect))
        requires
            rect.bounded(),
            ratio.wf(),
        ensures
            r == side_rects(rect, direction, ratio),
            r.0.bounded(),
            r.1.bounded(),
    {
        proof {
            lemma_parts_bounded(rect, ratio);
        }
        match direction {
            Direction::Vertical => Self::calc_vertical_sizing(rect, ratio),
            Direction::Horizontal => Self::calc_horizontal_sizing(rect, ratio),
            Direction::Full => (rect, rect),
        }
    }

    /// Gives every view of the tree its rectangle, the root covering `rect`;
    /// the tree keeps its shape.
    pub(crate) fn recursive_update(&mut self, rect: Rect)
        requires
            old(self).wf(),
            rect.bounded(),
        ensures
            final(self).wf(),
            final(self).same_shape(*old(self)),
            final(self).laid_out(rect),
        decreases *old(self),
    {
        let rects = Self::layout(rect, self.direction, self.ratio);
        match &mut self.left {
            Some(split) => split.recursive_update(rects.0),
            None => {},
        }
        match &mut self.right {
            Some(split) => split.recursive_update(rects.1),
            None => {},
        }
        self.left_views.place_all(rects.0);
        self.right_views.place_all(rects.1);
    }

    /// Puts a new view `handle` next to the first view with handle
    /// `find_handle`, splitting on the side where that view is; tells whether
    /// there was one. The tree is unchanged when there was none.
    pub fn split_by_view_handle(
        &mut self,
        direction: Direction,
        find_handle: ViewHandle,
        handle: ViewHandle,
    ) -> (found: bool)
        ensures
            found == old(self).holds(find_handle),
            found ==> final(self).inserted_near(*old(self), direction, find_handle, handle),
            !found ==> *final(self) == *old(self),
            old(self).wf() ==> final(self).wf(),
        decreases *old(self),
    {
        if self.left_views.contains_handle(find_handle) {
            self.split_left(handle, direction);
            return true;
        }
        if self.right_views.contains_handle(find_handle) {
            self.split_right(handle, direction);
            return true;
        }
        match &mut self.left {
            Some(split) => {
                if split.split_by_view_handle(direction, find_handle, handle) {
                    return true;
                }
            },
            None => {},
        }
        match &mut self.right {
            Some(split) => split.split_by_view_handle(direction, find_handle, handle),
            None => false,
        }
    }
}

} // verus!

verus! {

/// Containers with the same handles whose views all have one rectangle hold
/// the same views.
proof fn lemma_same_placed(a: Container, b: Container, rect: Rect)
    requires
        a.handles() == b.handles(),
        a.all_at(rect),
        b.all_at(rect),
    ensures
        a.views@ == b.views@,
{
    assert(a.views@.len() == a.handles().len());
    assert(b.views@.len() == b.handles().len());
    assert forall|i: int| 0 <= i < a.views@.len() implies a.views@[i] == b.views@[i] by {
        assert(a.handles()[i] == a.views@[i].handle);
        assert(b.handles()[i] == b.views@[i].handle);
        assert(a.views@[i].rect == rect);
        assert(b.views@[i].rect == rect);
    }
    assert(a.views@ =~= b.views@);
}

/// Two trees of the same shape laid out over the same rectangle hold the
/// same views in the same order: the layout is a function of the shape.
pub proof fn lemma_layout_determined(a: Split, b: Split, rect: Rect)
    requires
        a.same_shape(b),
        a.laid_out(rect),
        b.laid_out(rect),
    ensures
        a.views() == b.views(),
    decreases a,
{
    let sides = side_rects(rect, a.direction, a.ratio);
    lemma_same_placed(a.left_views, b.left_views, sides.0);
    lemma_same_placed(a.right_views, b.right_views, sides.1);
    match a.left {
        Some(c) => lemma_layout_determined(*c, *b.left->Some_0, sides.0),
        None => {},
    }
    match a.right {
        Some(c) => lemma_layout_determined(*c, *b.right->Some_0, sides.1),
        None => {},
    }
}

} // verus!
