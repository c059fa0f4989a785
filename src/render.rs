use vstd::prelude::*;

use crate::camera::Camera;

verus! {

/// What one frame submits: the orientation read once from the camera, and the
/// indices of the renderables in the order in which they are drawn.
pub struct Frame {
    pub yaw: i64,
    pub pitch: i64,
    pub draw_order: Vec<usize>,
}

/// The draw order of a frame over `n` renderables: each once, in insertion order.
pub open spec fn insertion_order(n: nat) -> Seq<usize> {
    Seq::new(n, |i: int| i as usize)
}

/// An ordered collection of renderable objects, drawn once per frame.
pub struct Render<M> {
    models: Vec<M>,
}

impl<M> View for Render<M> {
    type V = Seq<M>;

    closed spec fn view(&self) -> Seq<M> {
        self.models@
    }
}

impl<M> Render<M> {
    /// A scene with no renderables.
    pub fn new() -> (r: Render<M>)
        ensures
            r@ == Seq::<M>::empty(),
    {
        Render { models: Vec::new() }
    }

    /// Appends a renderable; it is drawn after those already present.
    pub fn add_model(&mut self, m: M)
        ensures
            final(self)@ == old(self)@.push(m),
    {
        self.models.push(m);
    }

    /// Number of renderables.
    pub fn len(&self) -> (r: usize)
        ensures
            r == self@.len(),
    {
        self.models.len()
    }

    /// The renderable at position `i` of the draw order.
    pub fn model(&self, i: usize) -> (r: &M)
        requires
            i < self@.len(),
        ensures
            *r == self@[i as int],
    {
        &self.models[i]
    }

    /// Reads the camera once and lists every renderable, in insertion order.
    pub fn render(&self, camera: &Camera) -> (f: Frame)
        ensures
            f.yaw == camera@.yaw,
            f.pitch == camera@.pitch,
            f.draw_order@ == insertion_order(self@.len()),
    {
        let (yaw, pitch) = camera.yaw_pitch();
        let n = self.models.len();
        let mut draw_order: Vec<usize> = Vec::new();
        let mut i: usize = 0;
        while i < n
            invariant
                i <= n,
                n == self@.len(),
                draw_order@ == insertion_order(i as nat),
            decreases n - i,
        {
            draw_order.push(i);
            i = i + 1;
            assert(draw_order@ =~= insertion_order(i as nat));
        }
        Frame { yaw, pitch, draw_order }
    }
}

} // verus!
