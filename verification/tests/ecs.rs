use rrte_engine::ecs::{
    ComplexQuery, ComponentManager, ComponentStorage, Entity, EntityManager, Query, QueryBuilder,
    System, SystemScheduler, World,
};

const POSITION: u64 = 1;
const HEALTH: u64 = 2;

fn sorted(mut ids: Vec<Entity>) -> Vec<u64> {
    let mut out: Vec<u64> = ids.drain(..).map(|e| e.id()).collect();
    out.sort();
    out
}

#[test]
fn entities_are_numbers() {
    let e = Entity::new(42);
    assert_eq!(e.id(), 42);
    assert_eq!(e, Entity::new(42));
    assert_ne!(e, Entity::new(43));
}

#[test]
fn entity_manager_hands_out_numbers_from_one() {
    let mut m = EntityManager::new();
    assert_eq!(m.entity_count(), 0);
    let a = m.create_entity();
    let b = m.create_entity();
    let c = m.create_entity();
    assert_eq!((a.id(), b.id(), c.id()), (1, 2, 3));
    assert_eq!(m.entity_count(), 3);
    assert!(m.is_alive(a) && m.is_alive(b) && m.is_alive(c));
    assert!(!m.is_alive(Entity::new(4)));
    assert_eq!(sorted(m.alive_entities()), vec![1, 2, 3]);
}

#[test]
fn entity_manager_destroys_once() {
    let mut m = EntityManager::default();
    let a = m.create_entity();
    let b = m.create_entity();
    assert!(m.destroy_entity(a));
    assert!(!m.destroy_entity(a));
    assert!(!m.destroy_entity(Entity::new(99)));
    assert!(!m.is_alive(a));
    assert!(m.is_alive(b));
    assert_eq!(m.entity_count(), 1);
    assert_eq!(sorted(m.alive_entities()), vec![2]);
    assert_eq!(m.create_entity().id(), 3);
}

#[test]
fn storage_keeps_one_component_for_each_entity() {
    let mut s: ComponentStorage<String> = ComponentStorage::new(POSITION);
    let e = Entity::new(1);
    assert!(!s.has_component(e));
    assert_eq!(s.insert(POSITION, e, "first".to_string()), None);
    assert_eq!(s.insert(POSITION, e, "second".to_string()), Some("first".to_string()));
    assert_eq!(s.get(POSITION, e), Some(&"second".to_string()));
    assert!(s.has_component(e));
    assert_eq!(s.get(POSITION, Entity::new(2)), None);
    assert_eq!(s.remove(e), Some("second".to_string()));
    assert_eq!(s.remove(e), None);
    assert!(!s.has_component(e));
}

#[test]
fn storage_turns_away_components_of_another_kind() {
    let mut s: ComponentStorage<u32> = ComponentStorage::new(POSITION);
    let e = Entity::new(1);
    assert_eq!(s.insert(HEALTH, e, 5), None);
    assert!(!s.has_component(e));
    s.insert(POSITION, e, 7);
    assert_eq!(s.get(HEALTH, e), None);
    assert!(s.get_mut(HEALTH, e).is_none());
    assert_eq!(s.get(POSITION, e), Some(&7));
}

#[test]
fn storage_components_change_in_place() {
    let mut s: ComponentStorage<u32> = ComponentStorage::new(HEALTH);
    s.insert(HEALTH, Entity::new(1), 10);
    s.insert(HEALTH, Entity::new(2), 20);
    *s.get_mut(HEALTH, Entity::new(1)).unwrap() += 5;
    assert_eq!(s.get(HEALTH, Entity::new(1)), Some(&15));
    assert_eq!(s.get(HEALTH, Entity::new(2)), Some(&20));
    assert!(s.get_mut(HEALTH, Entity::new(3)).is_none());
    assert_eq!(sorted(s.entities()), vec![1, 2]);
}

#[test]
fn manager_keeps_kinds_apart() {
    let mut m: ComponentManager<i32> = ComponentManager::new();
    let (a, b) = (Entity::new(1), Entity::new(2));
    m.add_component(POSITION, a, 10);
    m.add_component(HEALTH, a, 100);
    m.add_component(HEALTH, b, 200);
    assert_eq!(m.get_component(POSITION, a), Some(&10));
    assert_eq!(m.get_component(HEALTH, a), Some(&100));
    assert_eq!(m.get_component(POSITION, b), None);
    assert_eq!(m.get_component(3, a), None);
    assert!(m.has_component(HEALTH, b));
    assert!(!m.has_component(POSITION, b));
    assert_eq!(sorted(m.entities_with_component(HEALTH)), vec![1, 2]);
    assert_eq!(sorted(m.entities_with_component(POSITION)), vec![1]);
    assert_eq!(sorted(m.entities_with_component(3)), Vec::<u64>::new());
    m.add_component(POSITION, a, 11);
    assert_eq!(m.get_component(POSITION, a), Some(&11));
}

#[test]
fn manager_removes_components() {
    let mut m: ComponentManager<i32> = ComponentManager::default();
    let (a, b) = (Entity::new(1), Entity::new(2));
    m.add_component(POSITION, a, 10);
    m.add_component(HEALTH, a, 100);
    m.add_component(HEALTH, b, 200);
    assert!(m.remove_component(HEALTH, a));
    assert!(!m.remove_component(HEALTH, a));
    assert!(!m.remove_component(7, a));
    assert_eq!(m.get_component(POSITION, a), Some(&10));
    *m.get_component_mut(HEALTH, b).unwrap() -= 50;
    assert_eq!(m.get_component(HEALTH, b), Some(&150));
    assert!(m.get_component_mut(HEALTH, a).is_none());
    m.add_component(HEALTH, a, 1);
    m.remove_all_components(a);
    assert!(!m.has_component(POSITION, a));
    assert!(!m.has_component(HEALTH, a));
    assert_eq!(m.get_component(HEALTH, b), Some(&150));
}

#[test]
fn world_lists_its_entities_in_order() {
    let mut w: World<&'static str> = World::new();
    let a = w.create_entity();
    let b = w.create_entity();
    let c = w.create_entity();
    assert_eq!((a.id(), b.id(), c.id()), (0, 1, 2));
    assert_eq!(w.get_entities(), &vec![a, b, c]);
    w.destroy_entity(b);
    assert_eq!(w.get_entities(), &vec![a, c]);
    w.destroy_entity(b);
    assert_eq!(w.get_entities(), &vec![a, c]);
    assert_eq!(w.create_entity().id(), 3);
}

#[test]
fn world_components() {
    let mut w: World<&'static str> = World::default();
    let a = w.create_entity();
    let b = w.create_entity();
    w.add_component(POSITION, a, "here");
    w.add_component(POSITION, b, "there");
    w.add_component(HEALTH, a, "fine");
    assert_eq!(w.get_component(POSITION, a), Some(&"here"));
    assert_eq!(w.get_component(HEALTH, b), None);
    *w.get_component_mut(POSITION, b).unwrap() = "elsewhere";
    assert_eq!(w.get_component(POSITION, b), Some(&"elsewhere"));
    assert_eq!(sorted(w.get_entities_with_component(POSITION)), vec![0, 1]);
    assert!(w.remove_component(POSITION, a));
    assert!(!w.remove_component(POSITION, a));
    assert_eq!(sorted(w.get_entities_with_component(POSITION)), vec![1]);
    // a destroyed entity keeps its components
    w.destroy_entity(b);
    assert_eq!(w.get_component(POSITION, b), Some(&"elsewhere"));
}

#[test]
fn queries_give_back_what_they_are_handed() {
    let entities = vec![Entity::new(3), Entity::new(1), Entity::new(2)];
    let q: Query<u32> = Query::new();
    assert_eq!(q.entities_with_component(&entities), entities);
    let complex: ComplexQuery = QueryBuilder::new().with(POSITION).maybe_with(HEALTH).with(9).build();
    assert_eq!(complex.required(), &vec![POSITION, 9]);
    assert_eq!(complex.optional(), &vec![HEALTH]);
    assert_eq!(complex.execute(&entities), entities);
    let empty = QueryBuilder::default().build();
    assert!(empty.required().is_empty() && empty.optional().is_empty());
}

struct Healer {
    runs: u32,
}

impl System<u32> for Healer {
    fn run(&mut self, entities: &Vec<Entity>, components: &mut ComponentStorage<u32>) {
        self.runs += 1;
        for e in entities {
            if let Some(h) = components.get_mut(HEALTH, *e) {
                *h += 1;
            }
        }
    }
}

#[test]
fn scheduler_runs_each_system_once_in_order() {
    let mut scheduler: SystemScheduler<Healer> = SystemScheduler::new();
    assert_eq!(scheduler.len(), 0);
    scheduler.add_system(Healer { runs: 0 });
    scheduler.add_system(Healer { runs: 10 });
    assert_eq!(scheduler.len(), 2);
    let mut health: ComponentStorage<u32> = ComponentStorage::new(HEALTH);
    health.insert(HEALTH, Entity::new(1), 5);
    let entities = vec![Entity::new(1), Entity::new(2)];
    scheduler.run_systems(&entities, &mut health);
    scheduler.run_systems(&entities, &mut health);
    assert_eq!(health.get(HEALTH, Entity::new(1)), Some(&9));
    assert_eq!(scheduler.len(), 2);
}
