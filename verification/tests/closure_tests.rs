use std::cell::RefCell;
use std::rc::Rc;
use workbook::advanced::do_twice;
use workbook::advanced::returns_closure;
use workbook::cacher::Cacher;
use workbook::workout::generate_workout;
use workbook::workout::WorkoutPlan;

#[test]
fn call_with_different_values() {
    let mut c = Cacher::new(|a| a);

    let _v1 = c.value(1);
    let v2 = c.value(2);

    assert_eq!(v2, 2);
}

#[test]
fn cacher_returns_the_stored_result() {
    let mut c = Cacher::new(|a| a + 10);
    assert_eq!(11, c.value(1));
    assert_eq!(11, c.value(1));
    assert_eq!(12, c.value(2));
}

#[test]
fn cacher_runs_the_closure_once_per_argument() {
    let calls = Rc::new(RefCell::new(0u32));
    let counter = Rc::clone(&calls);
    let mut c = Cacher::new(move |a| {
        *counter.borrow_mut() += 1;
        a + 1
    });
    assert_eq!(2, c.value(1));
    assert_eq!(2, c.value(1));
    assert_eq!(2, c.value(1));
    assert_eq!(1, *calls.borrow());
    assert_eq!(8, c.value(7));
    assert_eq!(2, *calls.borrow());
}

#[test]
fn do_twice_doubles_through_the_function() {
    let answer = do_twice(workbook::advanced::add_one, 5);
    assert_eq!(12, answer);
}

#[test]
fn returned_closure_adds_one() {
    let f = returns_closure();
    assert_eq!(6, f(5));
    assert_eq!(0, f(-1));
}

#[test]
fn workout_plans_follow_intensity_and_luck() {
    assert_eq!(
        WorkoutPlan::PushupsAndSitups { count: 10 },
        generate_workout(10, 7)
    );
    assert_eq!(WorkoutPlan::Break, generate_workout(30, 3));
    assert_eq!(WorkoutPlan::Run { minutes: 30 }, generate_workout(30, 7));
}
