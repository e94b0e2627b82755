//! The pulse-propagation module network.

use occur::pulse::{Kind, Module, Pulse, Queue};

#[test]
fn flip_flop_toggles_on_low_pulses() {
    let mut flip_flop = Kind::new_flip_flop();

    // a high pulse is ignored
    assert_eq!(flip_flop.receive_pulse(0, Pulse::High), None);

    // a low pulse turns it on and emits high
    assert_eq!(flip_flop.receive_pulse(0, Pulse::Low), Some(Pulse::High));

    // the next low pulse turns it off and emits low
    assert_eq!(flip_flop.receive_pulse(0, Pulse::Low), Some(Pulse::Low));
}

#[test]
fn conjunction_emits_low_when_all_remembered_pulses_are_high() {
    let mut conjunction = Kind::new_conjunction();
    conjunction.connected(1);
    conjunction.connected(2);

    // one high input is not enough: source 2 still remembers low
    assert_eq!(conjunction.receive_pulse(1, Pulse::High), Some(Pulse::High));

    // once every source remembers high, it emits low
    assert_eq!(conjunction.receive_pulse(2, Pulse::High), Some(Pulse::Low));

    // a low pulse from either source flips it back to high
    assert_eq!(conjunction.receive_pulse(1, Pulse::Low), Some(Pulse::High));
}

#[test]
fn connecting_the_same_source_twice_keeps_one_entry() {
    let mut conjunction = Kind::new_conjunction();
    conjunction.connected(1);
    assert_eq!(conjunction.receive_pulse(1, Pulse::High), Some(Pulse::Low));

    // reconnecting resets the remembered pulse to low, with no second entry
    conjunction.connected(1);
    assert_eq!(conjunction.receive_pulse(1, Pulse::High), Some(Pulse::Low));
}

#[test]
fn broadcaster_repeats_and_button_emits_low() {
    let mut broadcaster = Kind::Broadcaster;
    assert_eq!(broadcaster.receive_pulse(0, Pulse::High), Some(Pulse::High));
    assert_eq!(broadcaster.receive_pulse(0, Pulse::Low), Some(Pulse::Low));

    let mut button = Kind::Button;
    assert_eq!(button.receive_pulse(0, Pulse::High), Some(Pulse::Low));
}

#[test]
fn module_queues_one_pulse_per_destination() {
    let mut broadcaster = Module::new(1, Kind::Broadcaster);
    broadcaster.connect(2);
    broadcaster.connect(3);

    let mut queue: Queue = Queue::new();
    broadcaster.receive_pulse(0, Pulse::Low, &mut queue);

    assert_eq!(queue.pop_front(), Some((2, Pulse::Low)));
    assert_eq!(queue.pop_front(), Some((3, Pulse::Low)));
    assert_eq!(queue.pop_front(), None);
}

#[test]
fn silent_module_queues_nothing() {
    let mut flip_flop = Module::new_rc(4, Kind::new_flip_flop());
    let flip_flop = std::rc::Rc::get_mut(&mut flip_flop).unwrap();
    flip_flop.connect(5);

    let mut queue: Queue = Queue::new();
    flip_flop.receive_pulse(0, Pulse::High, &mut queue);
    assert_eq!(queue.pop_front(), None);
}
