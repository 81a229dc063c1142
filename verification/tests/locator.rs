use slickrun::locator::{
    begin_walk, resolve_from_parents, AncestryWalk, WalkStep, WindowHandle, WindowLocator,
    MAX_LOOKUP_ATTEMPTS,
};

const ROOT: u32 = 0x1e5;

#[test]
fn no_walk_from_an_invalid_focus_target() {
    assert_eq!(begin_walk(0, ROOT), None);
    assert_eq!(begin_walk(1, ROOT), None);
    assert_eq!(begin_walk(ROOT, ROOT), None);
    assert_eq!(
        begin_walk(2, ROOT),
        Some(AncestryWalk { focus: 2, current: 2, client: 2 })
    );
}

#[test]
fn focused_child_of_root_is_the_handle() {
    let walk = begin_walk(0x40_0001, ROOT).unwrap();
    assert_eq!(walk.advance(ROOT, ROOT), WalkStep::Found(WindowHandle { id: 0x40_0001 }));
    assert_eq!(
        resolve_from_parents(0x40_0001, ROOT, &vec![ROOT]),
        Some(WindowHandle { id: 0x40_0001 })
    );
}

#[test]
fn client_inside_a_frame_is_the_handle() {
    let focus = 0x40_0009;
    let client = 0x40_0001;
    let frame = 0x20_0033;
    let walk = begin_walk(focus, ROOT).unwrap();
    let walk = match walk.advance(client, ROOT) {
        WalkStep::Ask(next) => next,
        other => panic!("walk ended early: {:?}", other),
    };
    assert_eq!(walk, AncestryWalk { focus, current: client, client: focus });
    let walk = match walk.advance(frame, ROOT) {
        WalkStep::Ask(next) => next,
        other => panic!("walk ended early: {:?}", other),
    };
    assert_eq!(walk, AncestryWalk { focus, current: frame, client });
    assert_eq!(walk.advance(ROOT, ROOT), WalkStep::Found(WindowHandle { id: client }));
    assert_eq!(
        resolve_from_parents(focus, ROOT, &vec![client, frame, ROOT]),
        Some(WindowHandle { id: client })
    );
}

#[test]
fn focused_client_inside_a_frame_is_the_handle() {
    assert_eq!(
        resolve_from_parents(0x40_0001, ROOT, &vec![0x20_0033, ROOT]),
        Some(WindowHandle { id: 0x40_0001 })
    );
}

#[test]
fn deep_focus_resolves_to_the_window_below_the_frame() {
    assert_eq!(
        resolve_from_parents(50, ROOT, &vec![40, 30, 20, 10, ROOT]),
        Some(WindowHandle { id: 20 })
    );
}

#[test]
fn missing_parent_ends_the_walk() {
    assert_eq!(
        resolve_from_parents(50, ROOT, &vec![40, 30, 0, 99]),
        Some(WindowHandle { id: 40 })
    );
}

#[test]
fn walk_without_an_end_finds_nothing() {
    assert_eq!(resolve_from_parents(50, ROOT, &vec![]), None);
    assert_eq!(resolve_from_parents(50, ROOT, &vec![40, 30]), None);
    assert_eq!(resolve_from_parents(ROOT, ROOT, &vec![ROOT]), None);
    assert_eq!(resolve_from_parents(1, ROOT, &vec![ROOT]), None);
}

#[test]
fn answers_behind_the_end_are_not_read() {
    assert_eq!(
        resolve_from_parents(50, ROOT, &vec![40, ROOT, 7, 8, 9]),
        Some(WindowHandle { id: 50 })
    );
}

#[test]
fn locator_counts_attempts_and_gives_up() {
    let mut locator = WindowLocator::new();
    assert_eq!(locator.attempts(), 0);
    assert!(locator.should_attempt());
    for n in 1..=MAX_LOOKUP_ATTEMPTS {
        assert!(!locator.abandoned());
        assert_eq!(locator.locate_self(None), None);
        assert_eq!(locator.attempts(), n);
    }
    assert!(!locator.should_attempt());
    assert!(locator.abandoned());
    assert_eq!(locator.locate_self(Some(WindowHandle { id: 3 })), None);
    assert_eq!(locator.attempts(), MAX_LOOKUP_ATTEMPTS);
    assert_eq!(locator.handle(), None);
}

#[test]
fn locator_keeps_its_first_handle() {
    let mut locator = WindowLocator::new();
    assert_eq!(locator.locate_self(None), None);
    assert_eq!(locator.locate_self(Some(WindowHandle { id: 0 })), None);
    let handle = WindowHandle { id: 0x2a };
    assert_eq!(locator.locate_self(Some(handle)), Some(handle));
    assert_eq!(locator.attempts(), 3);
    for other in [None, Some(WindowHandle { id: 0x2b }), Some(WindowHandle { id: 0 })] {
        assert_eq!(locator.locate_self(other), Some(handle));
    }
    assert_eq!(locator.handle(), Some(handle));
    assert_eq!(locator.attempts(), 3);
    assert!(!locator.should_attempt());
    assert!(!locator.abandoned());
}

#[test]
fn ids_name_windows_but_for_the_null_id() {
    assert_eq!(WindowHandle::from_id(0), None);
    assert_eq!(WindowHandle::from_id(1), Some(WindowHandle { id: 1 }));
    assert_eq!(WindowHandle::from_id(0x2a0_0007), Some(WindowHandle { id: 0x2a0_0007 }));
    assert_eq!(WindowHandle::from_id(u32::MAX), Some(WindowHandle { id: u32::MAX }));
}
