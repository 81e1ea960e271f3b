use std::cell::Cell;
use std::rc::Rc;
use wre::world::{ApplicationBuilder, WreEntity, WreWorld};

#[derive(Default)]
struct Counter {
    calls: Rc<Cell<(u32, u32, u32)>>,
}

impl WreEntity for Counter {
    fn init(&mut self) {
        let (i, u, r) = self.calls.get();
        self.calls.set((i + 1, u, r));
    }

    fn update(&mut self) {
        let (i, u, r) = self.calls.get();
        self.calls.set((i, u + 1, r));
    }

    fn render(&mut self) {
        let (i, u, r) = self.calls.get();
        self.calls.set((i, u, r + 1));
    }
}

#[test]
fn world_calls_each_entity() {
    let calls = Rc::new(Cell::new((0, 0, 0)));
    let mut world: WreWorld = WreWorld::new();
    assert!(world.entities.is_empty());
    world.add_entity(Box::new(Counter { calls: calls.clone() }));
    world.add_entity(Box::new(Counter { calls: calls.clone() }));
    assert_eq!(world.entities.len(), 2);
    assert_eq!(calls.get(), (2, 0, 0));
    world.update_entities();
    world.update_entities();
    world.render_entities();
    assert_eq!(calls.get(), (2, 4, 2));
    assert_eq!(world.entities.len(), 2);
}

#[test]
fn builder_collects_state_and_entities() {
    let builder = ApplicationBuilder::new(7u32).add_entity::<Counter>().add_entity::<Counter>();
    let (state, world) = builder.into_parts();
    assert_eq!(state, 7);
    assert_eq!(world.entities.len(), 2);
}
