use screengrab::guard::{release_all, Disposal, Guard, Release};

#[test]
fn null_handle_gives_no_guard() {
    assert!(Guard::acquire(0, Disposal::DeleteObject).is_none());
    assert!(Guard::acquire(0, Disposal::DeleteContext).is_none());
    assert!(Guard::acquire(0, Disposal::ReleaseContext).is_none());
}

#[test]
fn guard_hands_out_its_handle_without_giving_it_up() {
    let guard = Guard::acquire(0x51, Disposal::DeleteContext).unwrap();
    assert_eq!(guard.get(), 0x51);
    assert_eq!(guard.get(), 0x51);
    assert_eq!(guard.release(), Release { handle: 0x51, disposal: Disposal::DeleteContext });
}

#[test]
fn release_keeps_the_disposal_it_was_acquired_with() {
    for disposal in [Disposal::DeleteObject, Disposal::DeleteContext, Disposal::ReleaseContext] {
        let guard = Guard::acquire(usize::MAX, disposal).unwrap();
        assert_eq!(guard.release(), Release { handle: usize::MAX, disposal });
    }
}

#[test]
fn release_all_gives_back_last_acquired_first() {
    let guards = vec![
        Guard::acquire(1, Disposal::ReleaseContext).unwrap(),
        Guard::acquire(2, Disposal::DeleteContext).unwrap(),
        Guard::acquire(3, Disposal::DeleteObject).unwrap(),
    ];
    assert_eq!(
        release_all(guards),
        vec![
            Release { handle: 3, disposal: Disposal::DeleteObject },
            Release { handle: 2, disposal: Disposal::DeleteContext },
            Release { handle: 1, disposal: Disposal::ReleaseContext },
        ]
    );
}

#[test]
fn release_all_gives_back_each_handle_once() {
    let handles: Vec<usize> = (1..=40).collect();
    let guards: Vec<Guard> =
        handles.iter().map(|h| Guard::acquire(*h, Disposal::DeleteObject).unwrap()).collect();
    let releases = release_all(guards);
    assert_eq!(releases.len(), handles.len());
    for handle in handles {
        let times = releases.iter().filter(|r| r.handle == handle).count();
        assert_eq!(times, 1);
    }
}

#[test]
fn release_all_of_nothing_releases_nothing() {
    assert!(release_all(Vec::new()).is_empty());
}
