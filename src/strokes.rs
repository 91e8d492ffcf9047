use vstd::prelude::*;

verus! {

/// What the pose source reports of one hand in one tick: where it points,
/// and whether it is drawing.
pub struct HandSample<P> {
    pub position: P,
    pub drawing: bool,
}

/// The strokes of both hands: the one each hand is drawing, and a single slot
/// for the stroke most recently finished.
pub struct StrokeModel<P> {
    first: Vec<P>,
    second: Vec<P>,
    finished: Option<Vec<P>>,
}

/// A hand's live stroke after one sample: the position is added while the
/// hand draws, and the stroke is emptied once it stops.
pub open spec fn next_live<P>(live: Seq<P>, sample: HandSample<P>) -> Seq<P> {
    if sample.drawing {
        live.push(sample.position)
    } else {
        Seq::empty()
    }
}

/// The finished slot after one sample of a hand: a stroke that ends takes the
/// slot, over whatever it held.
pub open spec fn next_finished<P>(
    finished: Option<Seq<P>>,
    live: Seq<P>,
    sample: HandSample<P>,
) -> Option<Seq<P>> {
    if !sample.drawing && live.len() > 0 {
        Some(live)
    } else {
        finished
    }
}

/// The stroke as a sequence of points, if there is one.
pub open spec fn view_stroke<P>(s: Option<Vec<P>>) -> Option<Seq<P>> {
    match s {
        Some(v) => Some(v@),
        None => None,
    }
}

/// The line segments joining each point of a stroke to the next.
pub open spec fn segments_of<P>(stroke: Seq<P>) -> Seq<(P, P)> {
    Seq::new(
        if stroke.len() < 2 {
            0
        } else {
            (stroke.len() - 1) as nat
        },
        |i: int| (stroke[i], stroke[i + 1]),
    )
}

impl<P> StrokeModel<P> {
    /// The stroke that hand `hand` (0 or 1) is drawing.
    pub closed spec fn live(&self, hand: int) -> Seq<P> {
        if hand == 0 {
            self.first@
        } else {
            self.second@
        }
    }

    /// The finished stroke waiting to be recognized, if any.
    pub closed spec fn finished(&self) -> Option<Seq<P>> {
        view_stroke(self.finished)
    }

    /// No hand drawing and no finished stroke.
    pub fn new() -> (r: StrokeModel<P>)
        ensures
            r.live(0) == Seq::<P>::empty(),
            r.live(1) == Seq::<P>::empty(),
            r.finished() == None::<Seq<P>>,
    {
        StrokeModel { first: Vec::new(), second: Vec::new(), finished: None }
    }

    /// Takes one sample of each hand, the first hand before the second: a
    /// drawing hand extends its stroke; a hand that stops drawing moves its
    /// stroke into the finished slot, replacing what was there.
    pub fn update(&mut self, first: HandSample<P>, second: HandSample<P>)
        ensures
            final(self).live(0) == next_live(old(self).live(0), first),
            final(self).live(1) == next_live(old(self).live(1), second),
            final(self).finished() == next_finished(
                next_finished(old(self).finished(), old(self).live(0), first),
                old(self).live(1),
                second,
            ),
    {
        if first.drawing {
            self.first.push(first.position);
        } else if self.first.len() > 0 {
            let mut done: Vec<P> = Vec::new();
            std::mem::swap(&mut done, &mut self.first);
            self.finished = Some(done);
        }
        if second.drawing {
            self.second.push(second.position);
        } else if self.second.len() > 0 {
            let mut done: Vec<P> = Vec::new();
            std::mem::swap(&mut done, &mut self.second);
            self.finished = Some(done);
        }
    }

    /// The stroke that hand `hand` is drawing, for preview.
    pub fn current(&self, hand: usize) -> (r: &Vec<P>)
        requires
            hand < 2,
        ensures
            r@ == self.live(hand as int),
    {
        if hand == 0 {
            &self.first
        } else {
            &self.second
        }
    }

    /// Whether either hand has begun a stroke.
    pub fn is_drawing(&self) -> (r: bool)
        ensures
            r == (self.live(0).len() > 0 || self.live(1).len() > 0),
    {
        self.first.len() > 0 || self.second.len() > 0
    }

    /// Hands out the finished stroke and empties the slot.
    pub fn pop_stroke(&mut self) -> (r: Option<Vec<P>>)
        ensures
            view_stroke(r) == old(self).finished(),
            final(self).finished() == None::<Seq<P>>,
            final(self).live(0) == old(self).live(0),
            final(self).live(1) == old(self).live(1),
    {
        self.finished.take()
    }
}

/// The segments of a stroke drawn as a connected line: each point joined to
/// the next, and none for a stroke of fewer than two points.
pub fn segments<P: Copy>(stroke: &Vec<P>) -> (r: Vec<(P, P)>)
    ensures
        r@ == segments_of(stroke@),
{
    let mut r: Vec<(P, P)> = Vec::new();
    let n: usize = stroke.len();
    if n >= 2 {
        let mut i: usize = 0;
        while i < n - 1
            invariant
                n == stroke@.len(),
                n >= 2,
                0 <= i <= n - 1,
                r@ =~= segments_of(stroke@).subrange(0, i as int),
            decreases n - 1 - i,
        {
            r.push((stroke[i], stroke[i + 1]));
            i = i + 1;
        }
    }
    proof {
        assert(r@ =~= segments_of(stroke@));
    }
    r
}

} // verus!
