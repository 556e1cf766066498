use vstd::prelude::*;
use crate::geometry::{centre_origin, centre_spec, relative_spec, relative_to, LayoutPoint, Point, Size};

verus! {

/// What one paint pass does with the layout: where to draw it, and, when a
/// click was pending, the point to hit-test in the layout's own coordinates.
#[derive(Clone, Copy, Debug, PartialEq, Eq, Structural)]
pub struct PaintPlan {
    pub origin: Point,
    pub query: Option<LayoutPoint>,
}

/// The abstract state of a controller: the text it shows and the click that
/// no paint has taken yet.
pub ghost struct ControllerModel {
    pub text: Seq<char>,
    pub pending: Option<Point>,
}

/// The text shown in the window and the last click that no paint pass has
/// consumed yet.
pub struct Controller {
    text: String,
    pending: Option<Point>,
}

impl View for Controller {
    type V = ControllerModel;

    closed spec fn view(&self) -> ControllerModel {
        ControllerModel { text: self.text@, pending: self.pending }
    }
}

/// The state after a click at `p`: it replaces any click still pending.
pub open spec fn after_click(c: ControllerModel, p: Point) -> ControllerModel {
    ControllerModel { pending: Some(p), ..c }
}

/// The state after a paint pass: the pending click is gone.
pub open spec fn after_paint(c: ControllerModel) -> ControllerModel {
    ControllerModel { pending: None, ..c }
}

/// The plan of a paint pass over a window of `window_width` by
/// `window_height` pixels for a block of size `block`, with `pending` the
/// click taken at its start.
pub open spec fn plan_spec(
    pending: Option<Point>,
    window_width: int,
    window_height: int,
    block: Size,
) -> PaintPlan {
    let origin = centre_spec(window_width, window_height, block);
    PaintPlan {
        origin,
        query: match pending {
            Some(p) => Some(relative_spec(p, origin)),
            None => None,
        },
    }
}

impl Controller {
    /// A controller showing `text`, with no click pending.
    pub fn new(text: String) -> (r: Controller)
        ensures
            r@.text == text@,
            r@.pending == None::<Point>,
    {
        Controller { text, pending: None }
    }

    /// The text shown.
    pub fn text(&self) -> (r: &str)
        ensures
            r@ == self@.text,
    {
        self.text.as_str()
    }

    /// The click that no paint pass has taken yet.
    pub fn pending(&self) -> (r: Option<Point>)
        ensures
            r == self@.pending,
    {
        self.pending
    }

    /// Records a click at `p`, in window coordinates, over any click still
    /// pending.
    pub fn on_click(&mut self, p: Point)
        ensures
            final(self)@ == after_click(old(self)@, p),
    {
        self.pending = Some(p);
    }

    /// Takes the pending click, leaving none.
    pub fn take_click(&mut self) -> (r: Option<Point>)
        ensures
            r == old(self)@.pending,
            final(self)@ == after_paint(old(self)@),
    {
        let r = self.pending;
        self.pending = None;
        r
    }

    /// One paint pass over a window of `window_width` by `window_height`
    /// pixels, the text being shaped to a block of size `block`: centres the
    /// block and, when a click is pending, takes it and turns it into a point
    /// of the layout.
    pub fn paint(&mut self, window_width: i32, window_height: i32, block: Size) -> (r: PaintPlan)
        ensures
            r == plan_spec(old(self)@.pending, window_width as int, window_height as int, block),
            final(self)@ == after_paint(old(self)@),
    {
        let origin = centre_origin(window_width, window_height, block);
        let query = match self.take_click() {
            Some(p) => Some(relative_to(p, origin)),
            None => None,
        };
        PaintPlan { origin, query }
    }
}

/// A paint pass hit-tests exactly when a click was pending, and it consumes
/// that click: a second paint with no click in between hit-tests nothing,
/// whatever the window and the block.
pub proof fn lemma_paint_consumes_click(
    c: ControllerModel,
    w1: int,
    h1: int,
    b1: Size,
    w2: int,
    h2: int,
    b2: Size,
)
    ensures
        plan_spec(c.pending, w1, h1, b1).query is Some <==> c.pending is Some,
        plan_spec(after_paint(c).pending, w2, h2, b2).query is None,
        after_paint(after_paint(c)) == after_paint(c),
        after_paint(c).text == c.text,
{
}

/// A click followed by a paint gives that paint a point to hit-test, taken
/// from the last click: an earlier unconsumed one is overwritten.
pub proof fn lemma_last_click_wins(c: ControllerModel, p: Point, q: Point, w: int, h: int, b: Size)
    ensures
        plan_spec(after_click(after_click(c, p), q).pending, w, h, b) == plan_spec(Some(q), w, h, b),
        plan_spec(Some(q), w, h, b).query is Some,
{
}

} // verus!
