//! The scene model: the entities that exist after startup.
//!
//! A scene is an ordered record of the entities spawned so far. Only two
//! kinds of entity exist in this application: the 2D camera and a sprite
//! that references an image asset by its path.

use vstd::prelude::*;

verus! {

/// The mathematical model of one entity.
pub enum EntityView {
    Camera,
    Sprite { asset_path: Seq<char> },
}

/// One entity of the scene: the 2D camera, or a sprite whose texture is
/// loaded from the image asset at `asset_path`.
#[derive(Debug, PartialEq)]
pub enum Entity {
    Camera,
    Sprite { asset_path: String },
}

impl View for Entity {
    type V = EntityView;

    open spec fn view(&self) -> EntityView {
        match self {
            Entity::Camera => EntityView::Camera,
            Entity::Sprite { asset_path } => EntityView::Sprite { asset_path: asset_path@ },
        }
    }
}

/// How many cameras a scene holds.
pub open spec fn camera_count(s: Seq<EntityView>) -> nat
    decreases s.len(),
{
    if s.len() == 0 {
        0
    } else {
        camera_count(s.drop_last()) + (if s.last() is Camera {
            1nat
        } else {
            0nat
        })
    }
}

/// How many sprites a scene holds.
pub open spec fn sprite_count(s: Seq<EntityView>) -> nat
    decreases s.len(),
{
    if s.len() == 0 {
        0
    } else {
        sprite_count(s.drop_last()) + (if s.last() is Sprite {
            1nat
        } else {
            0nat
        })
    }
}

/// The scene graph, as this application sees it: the entities spawned so
/// far, in spawn order.
pub struct Scene {
    entities: Vec<Entity>,
}

impl View for Scene {
    type V = Seq<EntityView>;

    closed spec fn view(&self) -> Seq<EntityView> {
        self.entities@.map_values(|e: Entity| e@)
    }
}

impl Scene {
    /// An empty scene: nothing has been spawned yet.
    pub fn new() -> (s: Scene)
        ensures
            s@ == Seq::<EntityView>::empty(),
    {
        let s = Scene { entities: Vec::new() };
        proof {
            assert(s@ =~= Seq::<EntityView>::empty());
        }
        s
    }

    /// Spawns one entity: the scene afterwards is the old scene with the
    /// entity appended, and nothing else changes.
    pub fn spawn(&mut self, e: Entity)
        ensures
            final(self)@ == old(self)@.push(e@),
    {
        let ghost pre = self@;
        let ghost ev = e@;
        self.entities.push(e);
        proof {
            assert(self@ =~= pre.push(ev));
        }
    }

    /// The entities of the scene, in spawn order.
    pub fn entities(&self) -> (v: &Vec<Entity>)
        ensures
            v@.map_values(|e: Entity| e@) == self@,
    {
        &self.entities
    }

    /// How many entities the scene holds.
    pub fn len(&self) -> (n: usize)
        ensures
            n == self@.len(),
    {
        self.entities.len()
    }

    /// How many cameras the scene holds.
    pub fn count_cameras(&self) -> (n: usize)
        ensures
            n == camera_count(self@),
    {
        let mut n: usize = 0;
        let mut i: usize = 0;
        while i < self.entities.len()
            invariant
                i <= self.entities.len(),
                n <= i,
                self.entities@.len() == self@.len(),
                n == camera_count(self@.take(i as int)),
            decreases self.entities.len() - i,
        {
            proof {
                assert(self@.take(i + 1).drop_last() =~= self@.take(i as int));
                assert(self@.take(i + 1).last() == self.entities@[i as int]@);
            }
            match &self.entities[i] {
                Entity::Camera => {
                    n = n + 1;
                },
                Entity::Sprite { .. } => {},
            }
            i = i + 1;
        }
        proof {
            assert(self@.take(self@.len() as int) =~= self@);
        }
        n
    }

    /// How many sprites the scene holds.
    pub fn count_sprites(&self) -> (n: usize)
        ensures
            n == sprite_count(self@),
    {
        let mut n: usize = 0;
        let mut i: usize = 0;
        while i < self.entities.len()
            invariant
                i <= self.entities.len(),
                n <= i,
                self.entities@.len() == self@.len(),
                n == sprite_count(self@.take(i as int)),
            decreases self.entities.len() - i,
        {
            proof {
                assert(self@.take(i + 1).drop_last() =~= self@.take(i as int));
                assert(self@.take(i + 1).last() == self.entities@[i as int]@);
            }
            match &self.entities[i] {
                Entity::Camera => {},
                Entity::Sprite { .. } => {
                    n = n + 1;
                },
            }
            i = i + 1;
        }
        proof {
            assert(self@.take(self@.len() as int) =~= self@);
        }
        n
    }
}

} // verus!
