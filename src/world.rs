//! A world of user-defined entities, and the builder an application starts from.
use vstd::prelude::*;

verus! {

/// Something that lives in the world, implemented by the application.
pub trait WreEntity {
    /// Called once when the entity is added to the world.
    fn init(&mut self);

    /// Called on every frame to update the entity's state.
    fn update(&mut self);

    /// Called on every frame to render the entity.
    fn render(&mut self);
}

/// A boxed entity of any type forwards to the entity inside.
impl WreEntity for Box<dyn WreEntity> {
    fn init(&mut self) {
        (**self).init()
    }

    fn update(&mut self) {
        (**self).update()
    }

    fn render(&mut self) {
        (**self).render()
    }
}

/// The entities of the world, in the order they were added. By default an
/// entity may be of any type, boxed.
pub struct WreWorld<E: WreEntity = Box<dyn WreEntity>> {
    pub entities: Vec<E>,
}

impl<E: WreEntity> WreWorld<E> {
    /// An empty world.
    pub fn new() -> (w: WreWorld<E>)
        ensures
            w.entities@.len() == 0,
    {
        WreWorld { entities: Vec::new() }
    }

    /// Initialises `entity` and adds it after the entities already there.
    pub fn add_entity(&mut self, mut entity: E)
        ensures
            final(self).entities@.len() == old(self).entities@.len() + 1,
            final(self).entities@.subrange(0, old(self).entities@.len() as int) == old(self).entities@,
    {
        entity.init();
        let ghost before = self.entities@;
        self.entities.push(entity);
        assert(self.entities@.subrange(0, before.len() as int) =~= before);
    }

    /// Updates every entity once, in order.
    pub fn update_entities(&mut self)
        ensures
            final(self).entities@.len() == old(self).entities@.len(),
    {
        let n = self.entities.len();
        for i in 0..n
            invariant
                self.entities@.len() == n,
        {
            self.entities[i].update();
        }
    }

    /// Renders every entity once, in order.
    pub fn render_entities(&mut self)
        ensures
            final(self).entities@.len() == old(self).entities@.len(),
    {
        let n = self.entities.len();
        for i in 0..n
            invariant
                self.entities@.len() == n,
        {
            self.entities[i].render();
        }
    }
}

/// Gathers an application's state and its entities before the application runs.
pub struct ApplicationBuilder<T: 'static> {
    state: T,
    world: WreWorld,
}

impl<T: 'static> ApplicationBuilder<T> {
    /// The application state the builder holds.
    pub closed spec fn state(&self) -> T {
        self.state
    }

    /// The entities added so far, in order.
    pub closed spec fn entities(&self) -> Seq<Box<dyn WreEntity>> {
        self.world.entities@
    }

    /// Creates a new builder with the initial application state and an empty world.
    pub fn new(state: T) -> (b: Self)
        ensures
            b.state() == state,
            b.entities().len() == 0,
    {
        ApplicationBuilder { state, world: WreWorld::new() }
    }

    /// Adds a default-made entity of type `E` to the world, initialised.
    pub fn add_entity<E: WreEntity + Default + 'static>(self) -> (r: Self)
        ensures
            r.state() == self.state(),
            r.entities().len() == self.entities().len() + 1,
            r.entities().subrange(0, self.entities().len() as int) == self.entities(),
    {
        let mut b = self;
        let entity: Box<dyn WreEntity> = Box::new(E::default());
        b.world.add_entity(entity);
        b
    }

    /// The application state and the world, to run the application with.
    pub fn into_parts(self) -> (r: (T, WreWorld))
        ensures
            r.0 == self.state(),
            r.1.entities@ == self.entities(),
    {
        (self.state, self.world)
    }
}

} // verus!
