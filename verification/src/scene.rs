//! The 3D scene: the objects to draw, the lights on them and the background.

use vstd::prelude::*;

use crate::color::Rgb;

verus! {

/// The 3D scene containing objects and lights.
///
/// A scene keeps its objects and its lights in the order in which they were
/// added; what an object or a light is does not matter to the scene.
#[derive(Debug, Clone)]
pub struct Scene<O, L> {
    pub objects: Vec<O>,
    pub lights: Vec<L>,
    pub background: Rgb,
}

/// The contents of a scene.
#[verifier::ext_equal]
pub struct SceneView<O, L> {
    pub objects: Seq<O>,
    pub lights: Seq<L>,
    pub background: Rgb,
}

impl<O, L> SceneView<O, L> {
    /// No objects, no lights, black background.
    pub open spec fn empty() -> Self {
        SceneView { objects: Seq::empty(), lights: Seq::empty(), background: Rgb(0, 0, 0) }
    }

    /// The object appended after the others.
    pub open spec fn add_object(self, object: O) -> Self {
        SceneView { objects: self.objects.push(object), ..self }
    }

    /// The light appended after the others.
    pub open spec fn add_light(self, light: L) -> Self {
        SceneView { lights: self.lights.push(light), ..self }
    }

    /// The background replaced.
    pub open spec fn with_background(self, color: Rgb) -> Self {
        SceneView { background: color, ..self }
    }
}

impl<O, L> View for Scene<O, L> {
    type V = SceneView<O, L>;

    open spec fn view(&self) -> SceneView<O, L> {
        SceneView { objects: self.objects@, lights: self.lights@, background: self.background }
    }
}

impl<O, L> Scene<O, L> {
    /// An empty scene on a black background.
    pub fn new() -> (s: Self)
        ensures
            s@ == SceneView::<O, L>::empty(),
    {
        Scene { objects: Vec::new(), lights: Vec::new(), background: Rgb::black() }
    }

    /// Add an object after those already in the scene; the scene is handed
    /// back for chaining.
    pub fn add_object(&mut self, object: O) -> (r: &mut Self)
        ensures
            r@ == old(self)@.add_object(object),
            *final(self) == *final(r),
    {
        self.objects.push(object);
        self
    }

    /// Add a light after those already in the scene; the scene is handed
    /// back for chaining.
    pub fn add_light(&mut self, light: L) -> (r: &mut Self)
        ensures
            r@ == old(self)@.add_light(light),
            *final(self) == *final(r),
    {
        self.lights.push(light);
        self
    }

    /// The same scene on another background color.
    pub fn with_background(self, color: Rgb) -> (s: Self)
        ensures
            s@ == self@.with_background(color),
    {
        let mut s = self;
        s.background = color;
        s
    }
}

impl<O, L> Default for Scene<O, L> {
    fn default() -> (s: Self)
        ensures
            s@ == SceneView::<O, L>::empty(),
    {
        Self::new()
    }
}

/// An added object stands at the index that was the number of objects before
/// it: the objects before it stay where they were, and nothing else of the
/// scene changes.
pub proof fn law_added_object_index<O, L>(s: SceneView<O, L>, object: O)
    ensures
        s.add_object(object).objects.len() == s.objects.len() + 1,
        s.add_object(object).objects[s.objects.len() as int] == object,
        forall|i: int| 0 <= i < s.objects.len() ==> #[trigger] s.add_object(object).objects[i] == s.objects[i],
        s.add_object(object).lights == s.lights,
        s.add_object(object).background == s.background,
{
}

/// An added light stands at the index that was the number of lights before
/// it: the lights before it stay where they were, and nothing else of the
/// scene changes.
pub proof fn law_added_light_index<O, L>(s: SceneView<O, L>, light: L)
    ensures
        s.add_light(light).lights.len() == s.lights.len() + 1,
        s.add_light(light).lights[s.lights.len() as int] == light,
        forall|i: int| 0 <= i < s.lights.len() ==> #[trigger] s.add_light(light).lights[i] == s.lights[i],
        s.add_light(light).objects == s.objects,
        s.add_light(light).background == s.background,
{
}

/// Objects, lights and the background are independent: adding an object and
/// adding a light, or either of them and setting the background, give the
/// same scene in either order.
pub proof fn law_scene_updates_commute<O, L>(s: SceneView<O, L>, object: O, light: L, color: Rgb)
    ensures
        s.add_object(object).add_light(light) == s.add_light(light).add_object(object),
        s.add_object(object).with_background(color) == s.with_background(color).add_object(object),
        s.add_light(light).with_background(color) == s.with_background(color).add_light(light),
{
    assert(s.add_object(object).add_light(light) =~= s.add_light(light).add_object(object));
}

/// Setting the background twice keeps only the last color.
pub proof fn law_background_last_wins<O, L>(s: SceneView<O, L>, first: Rgb, second: Rgb)
    ensures
        s.with_background(first).with_background(second) == s.with_background(second),
{
}

} // verus!
