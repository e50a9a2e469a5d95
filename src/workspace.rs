use crate::error::Error;
use crate::geometry::{Ratio, Rect};
use crate::split::{lemma_layout_determined, Direction, Split, View, ViewHandle};
use vstd::prelude::*;
use vstd::view::View as _;

verus! {

/// The width of the border drawn around each view, in pixels.
pub const WINDOW_BORDER: i32 = 4;

/// The root of a layout: the tree of splits and the rectangle it covers.
pub struct Workspace {
    pub split: Option<Box<Split>>,
    pub rect: Rect,
    /// Width of the border drawn around each view, in pixels; layout ignores it.
    pub window_border: i32,
}

/// `rect` can be the area of a workspace: its origin is not negative, its
/// extents are positive and its far edges are representable.
pub open spec fn is_valid_area(rect: Rect) -> bool {
    &&& 0 <= rect.x
    &&& 0 <= rect.y
    &&& 0 < rect.width
    &&& 0 < rect.height
    &&& rect.bounded()
}

/// What is wrong with `rect` as the area of a workspace, the first of the
/// bounds that it breaks in the order x, y, width, height, far edges.
pub open spec fn area_problem(rect: Rect) -> Seq<char> {
    if rect.x < 0 {
        "x has to be non-negative"@
    } else if rect.y < 0 {
        "y has to be non-negative"@
    } else if rect.width <= 0 {
        "width has to be larger than 0"@
    } else if rect.height <= 0 {
        "height has to be larger than 0"@
    } else {
        "the far edges have to fit in an i32"@
    }
}

impl Workspace {
    pub open spec fn wf(&self) -> bool {
        &&& is_valid_area(self.rect)
        &&& match self.split {
            Some(s) => s.wf(),
            None => true,
        }
    }

    /// The views of the whole layout in drawing order.
    pub open spec fn views(&self) -> Seq<View> {
        match self.split {
            Some(s) => s.views(),
            None => Seq::empty(),
        }
    }

    /// `self` is `old` after `update`: the same tree, with every view given
    /// the rectangle that its place gives it within the workspace's area.
    pub open spec fn updated_from(&self, old: Workspace) -> bool {
        &&& self.rect == old.rect
        &&& self.window_border == old.window_border
        &&& match self.split {
            Some(n) => match old.split {
                Some(o) => n.same_shape(*o) && n.laid_out(self.rect),
                None => false,
            },
            None => old.split is None,
        }
    }

    /// The tree that a first view `h` makes: one split that it fills alone.
    pub open spec fn is_single_view(s: Split, h: ViewHandle) -> bool {
        &&& s.direction == Direction::Full
        &&& s.ratio == Ratio::spec_one()
        &&& s.left is None
        &&& s.right is None
        &&& s.left_views.views@ =~= seq![View::unplaced(h)]
        &&& s.right_views.views@.len() == 0
    }

    /// `self` is `old` after `split_top(h, direction)`: an empty workspace
    /// gets `h` as its single view; otherwise the root grows on its left.
    pub open spec fn topped_from(&self, old: Workspace, direction: Direction, h: ViewHandle) -> bool {
        &&& self.rect == old.rect
        &&& self.window_border == old.window_border
        &&& match self.split {
            Some(n) => match old.split {
                Some(o) => n.grown_left(*o, direction, h),
                None => Workspace::is_single_view(*n, h),
            },
            None => false,
        }
    }

    /// Builds an empty workspace over `rect`, which must have a non-negative
    /// origin, positive extents and far edges that fit in an `i32`.
    pub fn new(rect: Rect) -> (r: Result<Workspace, Error>)
        ensures
            r is Ok <==> is_valid_area(rect),
            match r {
                Ok(w) => w.split is None && w.rect == rect && w.window_border == WINDOW_BORDER
                    && w.wf(),
                Err(Error::IllegalSize(m)) => m@ == area_problem(rect),
            },
    {
        if rect.x < 0 {
            return Err(Error::IllegalSize("x has to be non-negative".to_owned()));
        }
        if rect.y < 0 {
            return Err(Error::IllegalSize("y has to be non-negative".to_owned()));
        }
        if rect.width <= 0 {
            return Err(Error::IllegalSize("width has to be larger than 0".to_owned()));
        }
        if rect.height <= 0 {
            return Err(Error::IllegalSize("height has to be larger than 0".to_owned()));
        }
        if rect.x > i32::MAX - rect.width || rect.y > i32::MAX - rect.height {
            return Err(Error::IllegalSize("the far edges have to fit in an i32".to_owned()));
        }
        Ok(Workspace { split: None, rect: rect, window_border: WINDOW_BORDER })
    }

    /// Makes a first view `view_handle` fill the whole workspace.
    fn split_new(&mut self, view_handle: ViewHandle)
        ensures
            final(self).split matches Some(s) && Workspace::is_single_view(*s, view_handle),
            final(self).rect == old(self).rect,
            final(self).window_border == old(self).window_border,
    {
        let mut split = Split::new(Direction::Full);
        split.ratio = Ratio::one();
        split.left_views.views.push(View::new(view_handle));
        self.split = Some(Box::new(split));
    }

    /// Adds a view at the top or left of the layout; the first view fills
    /// the whole workspace.
    pub fn split_top(&mut self, view_handle: ViewHandle, direction: Direction)
        ensures
            old(self).wf() ==> final(self).wf(),
            final(self).topped_from(*old(self), direction, view_handle),
    {
        match &mut self.split {
            Some(split) => split.split_left(view_handle, direction),
            None => self.split_new(view_handle),
        }
    }

    /// Gives every view the rectangle that its place in the tree gives it
    /// within the workspace's area.
    pub fn update(&mut self)
        requires
            old(self).wf(),
        ensures
            final(self).wf(),
            final(self).updated_from(*old(self)),
    {
        let rect = self.rect;
        match &mut self.split {
            Some(split) => split.recursive_update(rect),
            None => {},
        }
    }

    /// Puts a new view `handle` next to the first view with handle
    /// `find_handle`; does nothing when the layout has no such view.
    pub fn split_by_view_handle(
        &mut self,
        direction: Direction,
        find_handle: ViewHandle,
        handle: ViewHandle,
    )
        ensures
            old(self).wf() ==> final(self).wf(),
            match old(self).split {
                Some(o) if o.holds(find_handle) => {
                    &&& final(self).rect == old(self).rect
                    &&& final(self).window_border == old(self).window_border
                    &&& final(self).split matches Some(n) && n.inserted_near(
                        *o,
                        direction,
                        find_handle,
                        handle,
                    )
                },
                _ => *final(self) == *old(self),
            },
    {
        match &mut self.split {
            Some(split) => {
                split.split_by_view_handle(direction, find_handle, handle);
            },
            None => {},
        }
    }
}

/// On an empty workspace, a second `split_top` puts the second view beside
/// the first: one view on each side of the root, which splits evenly along
/// the second direction.
pub proof fn lemma_second_view_splits_root(
    w0: Workspace,
    w1: Workspace,
    w2: Workspace,
    h1: ViewHandle,
    h2: ViewHandle,
    d1: Direction,
    d2: Direction,
)
    requires
        w0.split is None,
        w1.topped_from(w0, d1, h1),
        w2.topped_from(w1, d2, h2),
    ensures
        w2.split matches Some(s) && {
            &&& s.direction == d2
            &&& s.ratio == Ratio::spec_half()
            &&& s.left_views.views@ == seq![View::unplaced(h1)]
            &&& s.right_views.views@ == seq![View::unplaced(h2)]
            &&& s.left is None
            &&& s.right is None
        },
{
    let s2 = w2.split->Some_0;
    assert(s2.right_views.views@ =~= seq![View::unplaced(h2)]);
}

/// Updating a second time, with no change in between, gives every view the
/// same rectangle as the first time, and keeps the tree's shape.
pub proof fn lemma_update_repeatable(w0: Workspace, w1: Workspace, w2: Workspace)
    requires
        w1.updated_from(w0),
        w2.updated_from(w1),
    ensures
        w2.views() == w1.views(),
        w2.rect == w1.rect,
        match w2.split {
            Some(b) => match w1.split {
                Some(a) => b.same_shape(*a),
                None => false,
            },
            None => w1.split is None,
        },
{
    match w2.split {
        Some(b) => {
            let a = w1.split->Some_0;
            lemma_layout_determined(*b, *a, w1.rect);
        },
        None => {},
    }
}

} // verus!
