use lk::lkonce::{LkOnce, OnceOp, States};
use std::cell::Cell;

const ALL_STATES: [States; 5] = [
    States::Uninit,
    States::EarlyInitting,
    States::EarlyInitted,
    States::Initializing,
    States::Initialized,
];

#[test]
fn state_tags_follow_the_lifecycle() {
    assert_eq!(States::Uninit.as_u8(), 0);
    assert_eq!(States::EarlyInitting.as_u8(), 1);
    assert_eq!(States::EarlyInitted.as_u8(), 2);
    assert_eq!(States::Initializing.as_u8(), 3);
    assert_eq!(States::Initialized.as_u8(), 4);
}

#[test]
fn state_tags_round_trip() {
    for state in ALL_STATES {
        assert_eq!(States::from_u8(state.as_u8()), Some(state));
    }
    assert_eq!(States::from_u8(5), None);
    assert_eq!(States::from_u8(255), None);
}

#[test]
fn early_init_is_let_through_only_from_uninit() {
    for state in ALL_STATES {
        assert_eq!(state.permits(OnceOp::EarlyInit), state == States::Uninit);
    }
}

#[test]
fn init_is_let_through_from_uninit_and_early_initted() {
    for state in ALL_STATES {
        assert_eq!(
            state.permits(OnceOp::Init),
            state == States::Uninit || state == States::EarlyInitted
        );
    }
}

#[test]
fn get_is_let_through_only_once_initialized() {
    for state in ALL_STATES {
        assert_eq!(state.permits(OnceOp::Get), state == States::Initialized);
    }
}

#[test]
fn get_early_is_let_through_once_a_stage_is_complete() {
    for state in ALL_STATES {
        assert_eq!(
            state.permits(OnceOp::GetEarly),
            state == States::EarlyInitted || state == States::Initialized
        );
    }
}

#[test]
fn building_states_of_each_stage() {
    assert_eq!(OnceOp::EarlyInit.underway(), States::EarlyInitting);
    assert_eq!(OnceOp::EarlyInit.complete(), States::EarlyInitted);
    assert_eq!(OnceOp::Init.underway(), States::Initializing);
    assert_eq!(OnceOp::Init.complete(), States::Initialized);
}

#[test]
fn fresh_cell_is_uninit_and_unreadable() {
    let cell: LkOnce<u32> = LkOnce::uninit();
    assert_eq!(cell.current(), States::Uninit);
    assert!(cell.try_get().is_none());
    assert!(cell.try_get_early().is_none());
}

#[test]
fn early_then_full_init() {
    let mut cell: LkOnce<(u32, u32)> = LkOnce::uninit();
    cell.early_init(|| (7, 0));
    assert_eq!(cell.current(), States::EarlyInitted);
    assert_eq!(*cell.get_early(), (7, 0));
    assert!(cell.try_get().is_none());

    cell.init(|early| {
        let (base, _) = early.unwrap();
        (base, 9)
    });
    assert_eq!(cell.current(), States::Initialized);
    assert_eq!(*cell.get(), (7, 9));
    assert_eq!(*cell.get_early(), (7, 9));
}

#[test]
fn full_init_without_early_stage() {
    let mut cell: LkOnce<u32> = LkOnce::uninit();
    cell.init(|early| {
        assert!(early.is_none());
        42
    });
    assert_eq!(cell.current(), States::Initialized);
    assert_eq!(*cell.get(), 42);
    assert_eq!(cell.try_get(), Some(&42));
    assert_eq!(cell.try_get_early(), Some(&42));
}

#[test]
fn second_init_is_turned_down_and_builds_nothing() {
    let calls = Cell::new(0);
    let mut cell: LkOnce<u32> = LkOnce::uninit();
    assert!(cell.try_init(|_| {
        calls.set(calls.get() + 1);
        1
    }));
    assert!(!cell.try_init(|_| {
        calls.set(calls.get() + 1);
        2
    }));
    assert_eq!(calls.get(), 1);
    assert_eq!(cell.current(), States::Initialized);
    assert_eq!(*cell.get(), 1);
}

#[test]
fn second_early_init_is_turned_down() {
    let calls = Cell::new(0);
    let mut cell: LkOnce<u32> = LkOnce::uninit();
    assert!(cell.try_early_init(|| {
        calls.set(calls.get() + 1);
        1
    }));
    assert!(!cell.try_early_init(|| {
        calls.set(calls.get() + 1);
        2
    }));
    assert_eq!(calls.get(), 1);
    assert_eq!(cell.current(), States::EarlyInitted);
    assert_eq!(*cell.get_early(), 1);
}

#[test]
fn early_init_after_full_init_is_turned_down() {
    let mut cell: LkOnce<u32> = LkOnce::uninit();
    assert!(cell.try_init(|_| 5));
    assert!(!cell.try_early_init(|| 6));
    assert_eq!(cell.current(), States::Initialized);
    assert_eq!(*cell.get(), 5);
}

#[test]
fn stages_in_two_calls() {
    let mut cell: LkOnce<u32> = LkOnce::uninit();
    cell.begin_early_init();
    assert_eq!(cell.current(), States::EarlyInitting);
    assert!(cell.try_get_early().is_none());
    assert!(!cell.current().permits(OnceOp::Init));
    cell.finish_early_init(3);
    assert_eq!(cell.current(), States::EarlyInitted);
    assert_eq!(cell.try_get_early(), Some(&3));

    let early = cell.begin_init();
    assert_eq!(early, Some(3));
    assert_eq!(cell.current(), States::Initializing);
    assert!(cell.try_get_early().is_none());
    assert!(cell.try_get().is_none());
    cell.finish_init(4);
    assert_eq!(cell.current(), States::Initialized);
    assert_eq!(cell.try_get(), Some(&4));
}

#[test]
fn attempts_under_way_are_turned_down() {
    let mut cell: LkOnce<u32> = LkOnce::uninit();
    cell.begin_init();
    assert!(!cell.try_early_init(|| 1));
    assert!(!cell.try_init(|_| 2));
    assert_eq!(cell.current(), States::Initializing);
}

#[test]
fn observed_states_never_go_backwards() {
    let attempts = [
        OnceOp::Get,
        OnceOp::Init,
        OnceOp::EarlyInit,
        OnceOp::GetEarly,
        OnceOp::Init,
        OnceOp::Get,
        OnceOp::EarlyInit,
    ];
    let mut cell: LkOnce<u32> = LkOnce::uninit();
    let mut seen = vec![cell.current().as_u8()];
    for op in attempts {
        match op {
            OnceOp::EarlyInit => {
                cell.try_early_init(|| 1);
            }
            OnceOp::Init => {
                cell.try_init(|_| 2);
            }
            OnceOp::Get => {
                cell.try_get();
            }
            OnceOp::GetEarly => {
                cell.try_get_early();
            }
        }
        seen.push(cell.current().as_u8());
    }
    assert_eq!(seen, vec![0, 0, 4, 4, 4, 4, 4, 4]);
    assert!(seen.windows(2).all(|pair| pair[0] <= pair[1]));
}
