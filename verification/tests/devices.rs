use rrtk::devices::{wrappers, DeviceUpdatable, NodeID, System};
use rrtk::{Datum, Getter, NothingOrError, Output, Time, Updatable};

fn six_nodes<S: Copy, C: Copy>(system: &mut System<6, S, C>) -> [NodeID; 6] {
    [
        system.new_node().unwrap(),
        system.new_node().unwrap(),
        system.new_node().unwrap(),
        system.new_node().unwrap(),
        system.new_node().unwrap(),
        system.new_node().unwrap(),
    ]
}

#[test]
fn devices_connected_iterator() {
    let mut system = System::<6, f32, ()>::new(0);
    let [_n0, n1, _n2, n3, n4, _n5] = six_nodes(&mut system);
    system.connect(n1, n3);
    system.connect(n4, n3);
    assert_eq!(system.connected_nodes(n3), vec![n1, n4]);
}

type State = (f32, f32, f32);

fn average(states: &[State]) -> Option<State> {
    if states.is_empty() {
        return None;
    }
    let n = states.len() as f32;
    let sum = states
        .iter()
        .fold((0.0, 0.0, 0.0), |acc, s| (acc.0 + s.0, acc.1 + s.1, acc.2 + s.2));
    Some((sum.0 / n, sum.1 / n, sum.2 / n))
}

#[test]
fn devices_state_connected() {
    let mut system = System::<6, State, ()>::new(1);
    let [_n0, n1, n2, n3, n4, _n5] = six_nodes(&mut system);
    system.connect(n1, n3);
    system.connect(n3, n2);
    system.connect(n4, n1);
    system.set_state_local(n2, Some((3.0, 9.0, 1.0)));
    system.set_state_local(n3, Some((3.0, 1.0, 3.0)));
    system.set_state_local(n4, Some((9.0, 1.0, 3.0)));
    let states: Vec<State> = system
        .connected_nodes(n3)
        .into_iter()
        .filter_map(|node| system.get_state_local(node))
        .collect();
    assert_eq!(
        average(&states),
        Some((
            6.0, // (3 + 9) / 2
            5.0, // (9 + 1) / 2
            2.0  // (1 + 3) / 2
        ))
    );
}

#[test]
fn new_node_fills_in_order_until_full() {
    let mut system = System::<2, u8, ()>::new(7);
    let a = system.new_node().unwrap();
    let b = system.new_node().unwrap();
    assert!(system.new_node().is_none());
    assert!(system.contains(a));
    assert!(a.same_system(b));
    assert!(a != b);
    assert_eq!(system.get_state_local(a), None);
    let other = System::<2, u8, ()>::new(8).new_node().unwrap();
    assert!(!system.contains(other));
    assert!(!a.same_system(other));
}

#[test]
fn connect_is_transitive_and_idempotent() {
    let mut system = System::<4, u8, ()>::new(2);
    let [a, b, c, d] = [
        system.new_node().unwrap(),
        system.new_node().unwrap(),
        system.new_node().unwrap(),
        system.new_node().unwrap(),
    ];
    system.connect(a, b);
    system.connect(b, c);
    assert_eq!(system.connected_nodes(a), vec![b, c]);
    assert_eq!(system.connected_nodes(c), vec![b, a]);
    //Connecting nodes that are already connected changes nothing.
    system.connect(c, a);
    assert_eq!(system.connected_nodes(a), vec![b, c]);
    assert_eq!(system.connected_nodes(d), vec![]);
}

#[test]
fn disconnect_keeps_the_others_connected() {
    let mut system = System::<4, u8, ()>::new(3);
    let [a, b, c, d] = [
        system.new_node().unwrap(),
        system.new_node().unwrap(),
        system.new_node().unwrap(),
        system.new_node().unwrap(),
    ];
    system.connect(a, b);
    system.connect(b, c);
    system.connect(c, d);
    system.disconnect(b);
    assert_eq!(system.connected_nodes(b), vec![]);
    assert_eq!(system.connected_nodes(a), vec![c, d]);
    assert_eq!(system.connected_nodes(d), vec![c, a]);
    system.disconnect(a);
    assert_eq!(system.connected_nodes(c), vec![d]);
    assert_eq!(system.connected_nodes(a), vec![]);
    system.set_state_local(c, Some(5));
    assert_eq!(system.get_state_local(c), Some(5));
    assert_eq!(system.get_state_local(d), None);
}

#[derive(Clone, Copy, Debug, PartialEq)]
struct MyError;

struct MyGetter {
    index: u8,
}

impl Updatable<MyError> for MyGetter {
    fn update(&mut self) -> NothingOrError<MyError> {
        self.index += 1;
        assert!(self.index <= 3);
        Ok(())
    }
}

const STATE_1: State = (1.0, 2.0, 3.0);
const STATE_2: State = (4.0, 5.0, 6.0);

impl Getter<State, MyError> for MyGetter {
    fn get(&self) -> Output<State, MyError> {
        match self.index {
            0 => Ok(Some(Datum::new(Time(0), STATE_1))),
            1 => Ok(None),
            2 => Ok(Some(Datum::new(Time(0), STATE_2))),
            3 => Err(MyError),
            _ => panic!("called update too many times"),
        }
    }
}

#[test]
fn get_and_write_to_node() {
    let mut system = System::<1, State, ()>::new(0);
    let node = system
        .new_node()
        .expect("the system has a capacity of 1, and this is the first node we're requesting");
    let mut getter = MyGetter { index: 0 };
    wrappers::get_and_write_to_node(&getter, &mut system, node).unwrap();
    assert_eq!(system.get_state_local(node), Some(STATE_1));
    getter.update().unwrap();
    wrappers::get_and_write_to_node(&getter, &mut system, node).unwrap();
    assert!(system.get_state_local(node).is_none());
    getter.update().unwrap();
    wrappers::get_and_write_to_node(&getter, &mut system, node).unwrap();
    assert_eq!(system.get_state_local(node), Some(STATE_2));
    getter.update().unwrap();
    assert!(wrappers::get_and_write_to_node(&getter, &mut system, node).is_err());
    assert!(system.get_state_local(node).is_none());
}

#[test]
fn getter_wrapper_updates_then_writes() {
    let mut system = System::<2, State, ()>::new(3);
    let node = system.new_node().unwrap();
    let other = system.new_node().unwrap();
    system.set_state_local(other, Some(STATE_2));
    let mut wrapper = wrappers::GetterWrapper::new(node, MyGetter { index: 0 });
    wrapper.device_update(&mut system).unwrap();
    assert_eq!(system.get_state_local(node), None);
    wrapper.device_update(&mut system).unwrap();
    assert_eq!(system.get_state_local(node), Some(STATE_2));
    assert_eq!(wrapper.device_update(&mut system), Err(MyError));
    assert_eq!(system.get_state_local(node), None);
    assert_eq!(system.get_state_local(other), Some(STATE_2));
}

#[test]
fn has_node_only_for_issued_nodes() {
    let mut system = System::<2, State, ()>::new(4);
    let mut other = System::<2, State, ()>::new(5);
    let node = system.new_node().unwrap();
    let foreign = other.new_node().unwrap();
    assert!(system.has_node(node));
    assert!(system.contains(node));
    assert!(!system.has_node(foreign));
    assert!(!system.contains(foreign));
}
