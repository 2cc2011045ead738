//In this file, the following numbers are used for errors (x: y = y returns x error number):
//1: getter.update()
//2: getter.get()
//3: settable.set()
//4: settable.update()
use std::cell::Cell;
use std::rc::Rc;

use rrtk::error::PossibleDoubleError;
use rrtk::{Datum, Feeder, Getter, NothingOrError, Output, Settable, Time, Updatable};

const CORRECT_VALUE: Output<u8, u8> = Ok(Some(Datum { time: Time(300_000_000), value: 39 }));

///A getter that counts its calls and answers as told.
struct MyGetter {
    update_result: NothingOrError<u8>,
    get_result: Output<u8, u8>,
    update_calls: Rc<Cell<u8>>,
    get_calls: Rc<Cell<u8>>,
    get_allowed: bool,
}

impl Updatable<u8> for MyGetter {
    fn update(&mut self) -> NothingOrError<u8> {
        self.update_calls.set(self.update_calls.get() + 1);
        self.update_result
    }
}

impl Getter<u8, u8> for MyGetter {
    fn get(&self) -> Output<u8, u8> {
        if !self.get_allowed {
            panic!("Since MyGetter::update returns Err, this should never be called.");
        }
        self.get_calls.set(self.get_calls.get() + 1);
        self.get_result
    }
}

///A settable that counts its calls and answers as told.
struct MySettable {
    set_result: Option<NothingOrError<u8>>,
    update_result: Option<NothingOrError<u8>>,
    set_calls: Rc<Cell<u8>>,
    update_calls: Rc<Cell<u8>>,
}

impl Settable<u8, u8> for MySettable {
    fn set(&mut self, value: u8) -> NothingOrError<u8> {
        assert_eq!(value, 39);
        self.set_calls.set(self.set_calls.get() + 1);
        self.set_result.expect("set must not be called here")
    }
}

impl Updatable<u8> for MySettable {
    fn update(&mut self) -> NothingOrError<u8> {
        self.update_calls.set(self.update_calls.get() + 1);
        self.update_result.expect("update must not be called here")
    }
}

struct Counters {
    getter_update: Rc<Cell<u8>>,
    getter_get: Rc<Cell<u8>>,
    settable_set: Rc<Cell<u8>>,
    settable_update: Rc<Cell<u8>>,
}

fn feeder(
    getter_update: NothingOrError<u8>,
    get_allowed: bool,
    get_result: Output<u8, u8>,
    set_result: Option<NothingOrError<u8>>,
    settable_update: Option<NothingOrError<u8>>,
) -> (Feeder<u8, MyGetter, MySettable, u8>, Counters) {
    let counters = Counters {
        getter_update: Rc::new(Cell::new(0)),
        getter_get: Rc::new(Cell::new(0)),
        settable_set: Rc::new(Cell::new(0)),
        settable_update: Rc::new(Cell::new(0)),
    };
    let getter = MyGetter {
        update_result: getter_update,
        get_result,
        update_calls: counters.getter_update.clone(),
        get_calls: counters.getter_get.clone(),
        get_allowed,
    };
    let settable = MySettable {
        set_result,
        update_result: settable_update,
        set_calls: counters.settable_set.clone(),
        update_calls: counters.settable_update.clone(),
    };
    (Feeder::new(getter, settable), counters)
}

#[test]
fn getter_update_fail_settable_update_ok() {
    let (mut feeder, counters) = feeder(Err(1), false, Ok(None), None, Some(Ok(())));
    let test = feeder.update();
    assert_eq!(test, Err(PossibleDoubleError::A(1)));
    assert_eq!(counters.settable_update.get(), 1);
}

#[test]
fn getter_update_fail_settable_update_fail() {
    let (mut feeder, _counters) = feeder(Err(1), false, Ok(None), None, Some(Err(4)));
    let test = feeder.update();
    assert_eq!(test, Err(PossibleDoubleError::AB(1, 4)));
}

#[test]
fn getter_get_fail_settable_update_ok() {
    let (mut feeder, counters) = feeder(Ok(()), true, Err(2), None, Some(Ok(())));
    let test = feeder.update();
    assert_eq!(test, Err(PossibleDoubleError::A(2)));
    assert_eq!(counters.getter_update.get(), 1);
    assert_eq!(counters.settable_update.get(), 1);
}

#[test]
fn getter_get_fail_settable_update_fail() {
    let (mut feeder, counters) = feeder(Ok(()), true, Err(2), None, Some(Err(4)));
    let test = feeder.update();
    assert_eq!(test, Err(PossibleDoubleError::AB(2, 4)));
    assert_eq!(counters.getter_update.get(), 1);
}

#[test]
fn settable_set_fail() {
    let (mut feeder, counters) = feeder(Ok(()), true, CORRECT_VALUE, Some(Err(3)), None);
    let test = feeder.update();
    assert_eq!(test, Err(PossibleDoubleError::B(3)));
    assert_eq!(counters.getter_update.get(), 1);
    assert_eq!(counters.getter_get.get(), 1);
    assert_eq!(counters.settable_update.get(), 0);
}

#[test]
fn getter_ok_settable_update_fail() {
    let (mut feeder, counters) = feeder(Ok(()), true, CORRECT_VALUE, Some(Ok(())), Some(Err(4)));
    let test = feeder.update();
    assert_eq!(test, Err(PossibleDoubleError::B(4)));
    assert_eq!(counters.getter_update.get(), 1);
    assert_eq!(counters.getter_get.get(), 1);
    assert_eq!(counters.settable_set.get(), 1);
}

#[test]
fn everything_ok_some() {
    let (mut feeder, counters) = feeder(Ok(()), true, CORRECT_VALUE, Some(Ok(())), Some(Ok(())));
    let test = feeder.update();
    assert_eq!(test, Ok(()));
    assert_eq!(counters.getter_update.get(), 1);
    assert_eq!(counters.getter_get.get(), 1);
    assert_eq!(counters.settable_set.get(), 1);
    assert_eq!(counters.settable_update.get(), 1);
}

#[test]
fn feeder_getter_none_skips_set() {
    let (mut feeder, counters) = feeder(Ok(()), true, Ok(None), None, Some(Ok(())));
    assert_eq!(feeder.update(), Ok(()));
    assert_eq!(counters.settable_set.get(), 0);
    assert_eq!(counters.settable_update.get(), 1);
}
