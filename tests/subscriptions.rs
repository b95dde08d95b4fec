use std::sync::{Arc, Mutex};

use media_remote::{merge_state, Listeners, NowPlayingInfo};

type Positions = Arc<Mutex<Vec<Option<i64>>>>;

type Seen = Arc<Mutex<Vec<Option<Option<bool>>>>>;

fn recorder(seen: &Seen) -> impl Fn(&Option<NowPlayingInfo>) {
    let seen = Arc::clone(seen);
    move |view: &Option<NowPlayingInfo>| {
        seen.lock().unwrap().push(view.as_ref().map(|i| i.is_playing));
    }
}

#[test]
fn subscribe_calls_the_listener_once_at_once() {
    let seen: Seen = Arc::new(Mutex::new(Vec::new()));
    let mut listeners = Listeners::new();
    listeners.subscribe(&None, recorder(&seen));
    assert_eq!(*seen.lock().unwrap(), vec![None]);

    let mut info = NowPlayingInfo::unknown();
    info.is_playing = Some(true);
    let seen2: Seen = Arc::new(Mutex::new(Vec::new()));
    let mut boxed: Listeners<Box<dyn Fn(&Option<NowPlayingInfo>)>> = Listeners::new();
    boxed.subscribe(&Some(info), Box::new(recorder(&seen2)));
    assert_eq!(*seen2.lock().unwrap(), vec![Some(Some(true))]);
}

#[test]
fn tokens_increase_and_are_not_reused() {
    let mut listeners: Listeners<Box<dyn Fn(&Option<NowPlayingInfo>)>> = Listeners::new();
    let a = listeners.subscribe(&None, Box::new(|_: &Option<NowPlayingInfo>| {})).unwrap();
    let b = listeners.subscribe(&None, Box::new(|_: &Option<NowPlayingInfo>| {})).unwrap();
    assert_ne!(a, b);
    listeners.unsubscribe(b);
    let c = listeners.subscribe(&None, Box::new(|_: &Option<NowPlayingInfo>| {})).unwrap();
    assert_ne!(c, a);
    assert_ne!(c, b);
}

#[test]
fn unsubscribed_listener_is_not_notified() {
    let seen_a: Seen = Arc::new(Mutex::new(Vec::new()));
    let seen_b: Seen = Arc::new(Mutex::new(Vec::new()));
    let mut listeners: Listeners<Box<dyn Fn(&Option<NowPlayingInfo>)>> = Listeners::new();
    let a = listeners.subscribe(&None, Box::new(recorder(&seen_a))).unwrap();
    listeners.subscribe(&None, Box::new(recorder(&seen_b)));
    listeners.unsubscribe(a);
    listeners.unsubscribe(a);
    listeners.notify(&Some(NowPlayingInfo::unknown()));
    assert_eq!(seen_a.lock().unwrap().len(), 1);
    assert_eq!(seen_b.lock().unwrap().len(), 2);
}

#[test]
fn state_change_fans_out_to_every_listener_once() {
    let seen_a: Seen = Arc::new(Mutex::new(Vec::new()));
    let seen_b: Seen = Arc::new(Mutex::new(Vec::new()));
    let mut slot = Some(NowPlayingInfo::unknown());
    let mut listeners: Listeners<Box<dyn Fn(&Option<NowPlayingInfo>)>> = Listeners::new();
    listeners.subscribe(&slot, Box::new(recorder(&seen_a)));
    listeners.subscribe(&slot, Box::new(recorder(&seen_b)));

    merge_state(slot.as_mut().unwrap(), Some(true));
    listeners.notify(&slot);

    let a = seen_a.lock().unwrap().clone();
    let b = seen_b.lock().unwrap().clone();
    assert_eq!(a, vec![Some(None), Some(Some(true))]);
    assert_eq!(b, vec![Some(None), Some(Some(true))]);
}

#[test]
fn subscribe_at_hands_out_the_extrapolated_view() {
    let seen: Positions = Arc::new(Mutex::new(Vec::new()));
    let seen_in = Arc::clone(&seen);
    let mut info = NowPlayingInfo::unknown();
    info.is_playing = Some(true);
    info.elapsed_time = Some(1_000);
    info.info_update_time = Some(10_000);
    let mut slot = Some(info);
    let mut listeners: Listeners<Box<dyn Fn(&Option<NowPlayingInfo>)>> = Listeners::new();
    let token = listeners.subscribe_at(
        &mut slot,
        12_000,
        Box::new(move |view: &Option<NowPlayingInfo>| {
            seen_in.lock().unwrap().push(view.as_ref().and_then(|i| i.elapsed_time));
        }),
    );
    assert!(token.is_some());
    assert_eq!(*seen.lock().unwrap(), vec![Some(3_000)]);
    assert_eq!(slot.unwrap().info_update_time, Some(12_000));

    let mut empty: Option<NowPlayingInfo> = None;
    let seen_none: Positions = Arc::new(Mutex::new(Vec::new()));
    let seen_none_in = Arc::clone(&seen_none);
    listeners.subscribe_at(
        &mut empty,
        5,
        Box::new(move |view: &Option<NowPlayingInfo>| {
            seen_none_in.lock().unwrap().push(view.as_ref().and_then(|i| i.elapsed_time));
            assert!(view.is_none());
        }),
    );
    assert_eq!(seen_none.lock().unwrap().len(), 1);
}
