use sod::thread::loop_round;
use sod::thread::loop_round_mut;
use sod::ArcService;
use sod::CloneService;
use sod::DynMutService;
use sod::DynService;
use sod::FnMutService;
use sod::FnService;
use sod::IntoIterService;
use sod::IntoService;
use sod::MaybeProcessService;
use sod::MutService;
use sod::MutexService;
use sod::NoOpService;
use sod::Service;
use sod::ServiceMut;
use sod::StopService;
use sod::Stopped;
use sod::TryIntoService;
use std::cell::Cell;
use std::sync::Arc;

/// Halves even numbers and fails on odd ones with the number.
struct Halve;
impl Service for Halve {
    type Input = u32;
    type Output = u32;
    type Error = u32;
    fn process(&self, input: u32) -> Result<u32, u32> {
        if input % 2 == 0 {
            Ok(input / 2)
        } else {
            Err(input)
        }
    }
}

/// Adds its input to a sum and gives the sum.
struct Sum {
    total: u32,
}
impl MutService for Sum {
    type Input = u32;
    type Output = u32;
    type Error = ();
    fn process(&mut self, input: u32) -> Result<u32, ()> {
        self.total += input;
        Ok(self.total)
    }
}

#[test]
fn no_op_hands_the_input_back() {
    let unit: NoOpService<u8> = NoOpService::new();
    assert!(Service::process(&unit, 5) == Ok(5));
    let mut unit: NoOpService<&str> = NoOpService::new();
    assert!(MutService::process(&mut unit, "x") == Ok("x"));
}

#[test]
fn into_converts_the_input() {
    let unit: IntoService<u64, u8> = IntoService::new();
    assert!(unit.process(200) == Ok(200u64));
    let unit: IntoService<String, &str> = IntoService::new();
    assert!(unit.process("text") == Ok(String::from("text")));
}

#[test]
fn try_into_fails_as_the_conversion_does() {
    let unit: TryIntoService<u8, u32> = TryIntoService::new();
    assert!(unit.process(200) == Ok(200u8));
    assert!(unit.process(256).is_err());
}

#[test]
fn clone_gives_a_copy_of_what_is_borrowed() {
    let unit: CloneService<String, &String> = CloneService::new();
    let text = String::from("kept");
    assert!(unit.process(&text) == Ok(String::from("kept")));
    assert_eq!(text, "kept");
    let unit: CloneService<Vec<u8>, Vec<u8>> = CloneService::new();
    assert!(unit.process(vec![1, 2]) == Ok(vec![1, 2]));
}

#[test]
fn a_function_is_a_unit() {
    let unit = FnService::new(|x: u8| -> Result<u8, ()> { Ok(x + 1) });
    assert!(unit.process(1) == Ok(2));
    let mut unit = FnMutService::new(|x: u8| -> Result<u8, u8> { Err(x) });
    assert!(unit.process(1) == Err(1));
}

#[test]
fn a_shared_unit_can_be_driven_exclusively() {
    let mut unit = ServiceMut::new(Halve);
    assert!(unit.process(8) == Ok(4));
    assert!(unit.process(3) == Err(3));
    let mut unit = Halve.into_mut();
    assert!(unit.process(10) == Ok(5));
    let mut unit = ServiceMut::from(Halve);
    assert!(unit.process(12) == Ok(6));
    let mut unit: ServiceMut<Halve> = Halve.into();
    assert!(unit.process(13) == Err(13));
}

#[test]
fn an_arc_unit_and_its_clones_drive_the_same_unit() {
    let unit = ArcService::new(Halve);
    let copy = unit.clone();
    assert!(unit.process(4) == Ok(2));
    assert!(copy.process(5) == Err(5));
    assert!(Arc::ptr_eq(&unit.service, &copy.service));
}

#[test]
fn a_locked_unit_keeps_its_state_across_clones() {
    let unit = MutexService::new(Sum { total: 0 });
    let copy = unit.clone();
    assert!(unit.process(1) == Ok(1));
    assert!(copy.process(2) == Ok(3));
    assert!(unit.process(4) == Ok(7));
}

#[test]
fn a_boxed_unit_behaves_as_the_unit() {
    let unit: DynService<u32, u32, u32> = DynService::new(Halve);
    assert!(unit.process(8) == Ok(4));
    assert!(unit.process(7) == Err(7));
    let mut unit: DynMutService<u32, u32, ()> = DynMutService::new(Sum { total: 0 });
    assert!(unit.process(3) == Ok(3));
    assert!(unit.process(4) == Ok(7));
}

#[test]
fn each_item_is_processed_in_order() {
    let unit = IntoIterService::new(Halve);
    assert!(unit.process(vec![2, 4, 6]) == Ok(vec![1, 2, 3]));
    assert!(unit.process(Vec::new()) == Ok(Vec::new()));
}

#[test]
fn the_first_failing_item_ends_the_processing() {
    let calls = Cell::new(0usize);
    let unit = IntoIterService::new(FnService::new(|x: u32| -> Result<u32, u32> {
        calls.set(calls.get() + 1);
        if x % 2 == 0 {
            Ok(x / 2)
        } else {
            Err(x)
        }
    }));
    assert!(unit.process(vec![2, 3, 5, 6]) == Err(3));
    assert_eq!(calls.get(), 2);
}

#[test]
fn an_option_is_processed_where_it_holds_a_value() {
    let unit = MaybeProcessService::new(Halve);
    assert!(unit.process(Some(8)) == Ok(Some(4)));
    assert!(unit.process(Some(7)) == Err(7));
    assert!(unit.process(None) == Ok(None));
}

#[test]
fn a_stop_gate_passes_its_input_while_running() {
    let running = Cell::new(true);
    let gate = StopService::new(|| running.get());
    assert!(gate.process(5u8) == Ok(5));
    running.set(false);
    assert!(gate.process(5u8) == Err(Stopped));
    assert_eq!(Stopped.message(), "Stopped");
    assert_eq!(Stopped.to_string(), "Stopped");
    assert_eq!(format!("{:?}", Stopped), "Stopped");
    let error: Box<dyn std::error::Error> = Box::new(Stopped);
    assert_eq!(error.to_string(), "Stopped");
}

#[test]
fn a_round_goes_on_after_a_success_or_a_handled_failure() {
    let handled = Cell::new(0usize);
    let take = |_: u32| -> Result<(), u32> {
        handled.set(handled.get() + 1);
        Ok(())
    };
    let even = FnService::new(|_: ()| -> Result<u32, u32> { Ok(2) });
    assert!(loop_round(&even, &take));
    assert_eq!(handled.get(), 0);
    let odd = FnService::new(|_: ()| -> Result<u32, u32> { Err(3) });
    assert!(loop_round(&odd, &take));
    assert_eq!(handled.get(), 1);
}

#[test]
fn a_round_ends_the_loop_where_the_handler_hands_the_failure_back() {
    let give_back = |err: u32| -> Result<(), u32> { Err(err) };
    let odd = FnService::new(|_: ()| -> Result<u32, u32> { Err(3) });
    assert!(!loop_round(&odd, &give_back));
    let mut failing = FnMutService::new(|_: ()| -> Result<u32, u32> { Err(3) });
    assert!(!loop_round_mut(&mut failing, &give_back));
    let mut fine = FnMutService::new(|_: ()| -> Result<u32, u32> { Ok(3) });
    assert!(loop_round_mut(&mut fine, &give_back));
}
