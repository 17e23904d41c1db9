//! The one-time startup step: it populates an empty scene with the 2D
//! camera and the sprite bound to the fixed asset path, and it runs at
//! most once per application.

use vstd::prelude::*;
use vstd::string::StringExecFns;

use crate::scene::camera_count;
use crate::scene::sprite_count;
use crate::scene::Entity;
use crate::scene::EntityView;
use crate::scene::Scene;

verus! {

/// The fixed path of the image asset the sprite displays.
pub open spec fn spec_asset_path() -> Seq<char> {
    "ducky.png"@
}

/// The fixed path of the image asset the sprite displays. Every run of the
/// application uses this same path.
pub fn asset_path() -> (s: &'static str)
    ensures
        s@ == spec_asset_path(),
{
    "ducky.png"
}

/// What the startup handler adds to the scene: the camera first, then the
/// sprite bound to the fixed asset path.
pub open spec fn startup_entities() -> Seq<EntityView> {
    seq![EntityView::Camera, EntityView::Sprite { asset_path: spec_asset_path() }]
}

/// The startup handler. It spawns the 2D camera and the sprite whose
/// texture is the image asset at the fixed path, in that order, and
/// touches nothing else in the scene.
pub fn setup(commands: &mut Scene)
    ensures
        final(commands)@ == old(commands)@ + startup_entities(),
{
    commands.spawn(Entity::Camera);
    let path = String::from_str(asset_path());
    commands.spawn(Entity::Sprite { asset_path: path });
    proof {
        assert(commands@ =~= old(commands)@ + startup_entities());
    }
}

/// Whether the startup step has run yet.
#[derive(Debug, Clone, Copy, PartialEq, Eq, Structural)]
pub enum StartupState {
    NotStarted,
    Populated,
}

/// The mathematical model of the application: its lifecycle state and its
/// scene.
pub struct AppView {
    pub state: StartupState,
    pub scene: Seq<EntityView>,
}

/// The application: a scene together with the startup lifecycle. A fresh
/// application has an empty scene; running startup populates it once, and
/// a repeated run changes nothing.
pub struct App {
    state: StartupState,
    scene: Scene,
}

impl View for App {
    type V = AppView;

    closed spec fn view(&self) -> AppView {
        AppView { state: self.state, scene: self.scene@ }
    }
}

impl App {
    /// A fresh application: startup has not run and the scene is empty.
    pub fn new() -> (app: App)
        ensures
            app@.state is NotStarted,
            app@.scene == Seq::<EntityView>::empty(),
    {
        App { state: StartupState::NotStarted, scene: Scene::new() }
    }

    /// Runs the startup handler if it has not run yet. Afterwards the
    /// application is populated; on the first call the camera and the
    /// sprite are spawned, and any later call leaves the scene exactly
    /// as it was.
    pub fn run_startup(&mut self)
        ensures
            final(self)@.state is Populated,
            old(self)@.state is NotStarted ==> final(self)@.scene == old(self)@.scene
                + startup_entities(),
            old(self)@.state is Populated ==> final(self)@.scene == old(self)@.scene,
    {
        match self.state {
            StartupState::NotStarted => {
                setup(&mut self.scene);
                self.state = StartupState::Populated;
            },
            StartupState::Populated => {},
        }
    }

    /// Whether startup has run.
    pub fn is_populated(&self) -> (b: bool)
        ensures
            b == (self@.state is Populated),
    {
        matches!(self.state, StartupState::Populated)
    }

    /// The application's scene.
    pub fn scene(&self) -> (s: &Scene)
        ensures
            s@ == self@.scene,
    {
        &self.scene
    }
}

/// Startup spawns exactly the camera and the sprite: whatever the scene
/// held before, it afterwards holds one more camera, one more sprite, and
/// exactly two more entities in all.
pub proof fn lemma_startup_spawns_exactly_camera_and_sprite(s: Seq<EntityView>)
    ensures
        camera_count(s + startup_entities()) == camera_count(s) + 1,
        sprite_count(s + startup_entities()) == sprite_count(s) + 1,
        (s + startup_entities()).len() == s.len() + 2,
{
    let t = s + startup_entities();
    let p = s.push(EntityView::Camera);
    assert(t.len() == s.len() + 2);
    assert(t.last() == startup_entities()[1]);
    assert(t.drop_last() =~= p);
    assert(p.last() == EntityView::Camera);
    assert(p.drop_last() =~= s);
    assert(camera_count(p) == camera_count(s) + 1);
    assert(sprite_count(p) == sprite_count(s));
    assert(camera_count(t) == camera_count(p));
    assert(sprite_count(t) == sprite_count(p) + 1);
}

/// On a fresh application the populated scene holds exactly one camera
/// and exactly one sprite, and no entity besides those two: the camera at
/// the first position and the sprite at the second.
pub proof fn lemma_fresh_startup_scene()
    ensures
        camera_count(startup_entities()) == 1,
        sprite_count(startup_entities()) == 1,
        startup_entities().len() == 2,
        startup_entities()[0] is Camera,
        startup_entities()[1] is Sprite,
{
    lemma_startup_spawns_exactly_camera_and_sprite(Seq::<EntityView>::empty());
    assert(Seq::<EntityView>::empty() + startup_entities() =~= startup_entities());
}

/// Every sprite that startup spawns references the fixed asset path: the
/// reference is the same in every run of the application.
pub proof fn lemma_sprite_path_fixed(i: int)
    requires
        0 <= i < startup_entities().len(),
        startup_entities()[i] is Sprite,
    ensures
        startup_entities()[i]->asset_path == spec_asset_path(),
{
}

} // verus!
