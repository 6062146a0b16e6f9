use change_notifier::change_notifier::ChangeNotifier;
use change_notifier::event::Event;

// A waiting task is played by hand here: each `poll` is one suspension
// attempt, a `false` return is the task parking, a `true` return is the await
// completing.

#[test]
fn smoke() {
    // A variable somebody else wants to watch.
    let mut myvar = ChangeNotifier::new(false);
    // The watcher takes a listener for it.
    let mut myvar_listener = myvar.listen();

    // The watcher's task suspends: nothing has been updated yet.
    let mut received_update = false;
    assert!(!myvar.poll(&mut myvar_listener));

    // Make sure the update has not yet been received.
    assert!(received_update == false);

    // Update the bool.
    myvar.update(|x: &mut bool| *x = true);

    // The watcher's task wakes, re-reads, and records that it saw the update.
    assert!(myvar.poll(&mut myvar_listener));
    received_update = *myvar.get();

    // Make sure the update was received.
    assert!(received_update == true);
}

#[test]
fn multiple_listeners_one_fire() {
    let mut n = ChangeNotifier::new(0u64);
    let mut l1 = n.listen();
    let mut l2 = n.listen();
    let mut l3 = n.listen();

    // Three tasks park on their listeners.
    assert!(!n.poll(&mut l1));
    assert!(!n.poll(&mut l2));
    assert!(!n.poll(&mut l3));

    let mut counter = 0u64;
    n.update(|v: &mut u64| *v += 1);

    // All three complete after the one fire.
    if n.poll(&mut l1) {
        counter += 1;
    }
    if n.poll(&mut l2) {
        counter += 1;
    }
    if n.poll(&mut l3) {
        counter += 1;
    }
    assert!(counter == 3);
    assert!(*n.get() == 1);
}

#[test]
fn late_listener_misses_prior_fire() {
    let mut n = ChangeNotifier::new(());
    n.update(|_v: &mut ()| {});

    // A listener taken after the fire waits for the next one.
    let mut l = n.listen();
    let mut seen = false;
    assert!(!n.poll(&mut l));
    assert!(seen == false);

    n.update(|_v: &mut ()| {});
    assert!(n.poll(&mut l));
    seen = true;
    assert!(seen == true);
}

#[test]
fn listener_created_before_fire_completes_without_parking() {
    // A listener that existed when a draining fire happened completes on its
    // very first poll: it never parks and is never registered.
    let mut n = ChangeNotifier::new(0u32);
    let mut parked = n.listen();
    assert!(!n.poll(&mut parked));

    let mut never_polled = n.listen();
    n.update(|v: &mut u32| *v = 9);

    assert!(n.poll(&mut never_polled));
    assert!(n.poll(&mut parked));
    assert!(*n.get() == 9);
}

#[test]
fn drop_during_wait_cleans_up() {
    let mut e = Event::new();
    let mut l = e.listen();

    // The task parks, then its await is cancelled.
    assert!(!l.poll(&mut e));
    l.cancel(&mut e);

    // The waiter set is empty again: the next fire takes the fast path and
    // wakes nobody.
    let woken = e.notify_all();
    assert!(woken.is_empty());
}

#[test]
fn update_with_no_listeners_is_cheap() {
    let mut n = ChangeNotifier::new(0u64);
    for _ in 0..1000 {
        n.update(|v: &mut u64| *v += 1);
    }
    // The payload is the sequential composition of the closures.
    assert!(*n.get() == 1000);
}

#[test]
fn notify_reports_each_waiter_once() {
    let mut e = Event::new();
    let mut l1 = e.listen();
    let mut l2 = e.listen();
    assert!(!l1.poll(&mut e));
    assert!(!l2.poll(&mut e));

    let woken = e.notify_all();
    assert!(woken.len() == 2);
    assert!(woken[0] != woken[1]);

    // Both awaits now complete.
    assert!(l1.poll(&mut e));
    assert!(l2.poll(&mut e));
}

#[test]
fn single_shot_listener_consumes_one_fire() {
    let mut e = Event::new();
    let mut l = e.listen();
    assert!(!l.poll(&mut e));

    // First fire drains the listener.
    assert!(e.notify_all().len() == 1);
    assert!(l.poll(&mut e));

    // A second fire finds nobody registered: the consumed listener is gone.
    assert!(e.notify_all().is_empty());
}

#[test]
fn fast_path_fire_has_no_effect() {
    let mut e = Event::new();
    assert!(e.notify_all().is_empty());
    assert!(e.notify_all().is_empty());

    // A listener taken afterwards still waits for a real, draining fire.
    let mut l = e.listen();
    assert!(!l.poll(&mut e));
    assert!(e.notify_all().len() == 1);
    assert!(l.poll(&mut e));
}

#[test]
fn update_returns_the_closure_value() {
    let mut n = ChangeNotifier::new(String::from("a"));
    let old_len = n.update(|s: &mut String| {
        let len = s.len();
        s.push('b');
        len
    });
    assert!(old_len == 1);
    assert!(*n.get() == String::from("ab"));
}

#[test]
fn clone_shares_nothing() {
    let mut a = ChangeNotifier::new(5i32);
    let mut b = a.clone();
    assert!(*b.get() == 5);

    // A listener on the clone is not woken by the original's update.
    let mut lb = b.listen();
    assert!(!b.poll(&mut lb));
    a.update(|v: &mut i32| *v = 6);
    assert!(!b.poll(&mut lb));

    // The clone's own update wakes it, and the payloads are independent.
    b.update(|v: &mut i32| *v = 7);
    assert!(b.poll(&mut lb));
    assert!(*a.get() == 6);
    assert!(*b.get() == 7);
}
