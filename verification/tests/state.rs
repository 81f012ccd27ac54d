use nutt_web::modules::state::{State, StateStore};

#[test]
fn state_holds_its_first_value() {
    let state = State::new(10);
    assert_eq!(*state.read(), 10);
}

#[test]
fn written_value_is_read_back() {
    let state = State::new(10);
    *state.write() = 42;
    assert_eq!(*state.read(), 42);
}

#[test]
fn handles_share_one_value() {
    let state = State::new(String::from("a"));
    let other = state.clone();
    other.write().push('b');
    assert_eq!(*state.read(), "ab");
    *state.write() = String::from("c");
    assert_eq!(*other.read(), "c");
}

#[test]
fn many_readers_at_once() {
    let state = State::new(7);
    let first = state.read();
    let second = state.read();
    assert_eq!(*first + *second, 14);
}

#[test]
fn two_writers_leave_one_of_their_values() {
    let runtime = tokio::runtime::Builder::new_multi_thread().worker_threads(4).build().unwrap();
    let mut round: i32 = 0;
    while round < 200 {
        let state = State::new(0);
        let a = state.clone();
        let b = state.clone();
        let first = runtime.spawn_blocking(move || {
            *a.write() = 1111;
        });
        let second = runtime.spawn_blocking(move || {
            *b.write() = 2222;
        });
        runtime.block_on(first).unwrap();
        runtime.block_on(second).unwrap();
        let value = *state.read();
        assert!(value == 1111 || value == 2222);
        round += 1;
    }
}

#[test]
fn writer_waits_for_a_reader() {
    let runtime = tokio::runtime::Builder::new_multi_thread().worker_threads(2).build().unwrap();
    let state = State::new(vec![1, 2, 3]);
    let handle = state.clone();
    let guard = state.read();
    let writer = runtime.spawn_blocking(move || {
        handle.write().push(4);
    });
    assert_eq!(guard.len(), 3);
    assert_eq!(*guard, vec![1, 2, 3]);
    drop(guard);
    runtime.block_on(writer).unwrap();
    assert_eq!(*state.read(), vec![1, 2, 3, 4]);
}

#[test]
fn writes_in_turn_leave_the_last_value() {
    let state = State::new(0);
    let mut n: i32 = 1;
    while n <= 100 {
        *state.clone().write() = n;
        n += 1;
    }
    assert_eq!(*state.read(), 100);
}

#[test]
fn store_files_slots_by_name() {
    let mut store: StateStore<State<i32>> = StateStore::new();
    assert!(store.get("num").is_none());
    store.insert("num".to_string(), State::new(10));
    store.insert("tokens".to_string(), State::new(0));
    assert_eq!(*store.get("num").unwrap().read(), 10);
    *store.get("num").unwrap().write() = 42;
    assert_eq!(*store.get("num").unwrap().read(), 42);
    assert_eq!(*store.get("tokens").unwrap().read(), 0);
    store.insert("num".to_string(), State::new(7));
    assert_eq!(*store.get("num").unwrap().read(), 7);
    assert!(store.get("").is_none());
}

#[test]
fn store_gives_access_by_name() {
    let mut store: StateStore<State<i32>> = StateStore::new();
    store.insert("num".to_string(), State::new(10));
    assert_eq!(*store.read("num").unwrap(), 10);
    *store.write("num").unwrap() = 42;
    assert_eq!(*store.read("num").unwrap(), 42);
    assert!(store.read("other").is_none());
    assert!(store.write("other").is_none());
}
