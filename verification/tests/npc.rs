use reckoning::npc::Patrol;

#[test]
fn patrol_starts_for_the_second_point() {
    assert_eq!(Patrol::default(), Patrol { index: 1, forward: true });
}

#[test]
fn patrol_turns_round_at_both_ends() {
    let mut patrol = Patrol::default();
    let mut visited = Vec::new();
    for _ in 0..9 {
        visited.push(patrol.index);
        patrol.reach_point(4);
    }
    assert_eq!(visited, vec![1, 2, 3, 2, 1, 0, 1, 2, 3]);
    assert_eq!(patrol, Patrol { index: 2, forward: false });
}

#[test]
fn patrol_between_two_points() {
    let mut patrol = Patrol::default();
    patrol.reach_point(2);
    assert_eq!(patrol, Patrol { index: 0, forward: false });
    patrol.reach_point(2);
    assert_eq!(patrol, Patrol { index: 1, forward: true });
    patrol.reach_point(2);
    assert_eq!(patrol, Patrol { index: 0, forward: false });
}

#[test]
fn patrol_keeps_its_sense_between_the_ends() {
    let mut patrol = Patrol { index: 2, forward: false };
    patrol.reach_point(5);
    assert_eq!(patrol, Patrol { index: 1, forward: false });
    let mut patrol = Patrol { index: 2, forward: true };
    patrol.reach_point(5);
    assert_eq!(patrol, Patrol { index: 3, forward: true });
    // At an end the sense is set whatever it was.
    let mut patrol = Patrol { index: 0, forward: false };
    patrol.reach_point(5);
    assert_eq!(patrol, Patrol { index: 1, forward: true });
    let mut patrol = Patrol { index: 4, forward: true };
    patrol.reach_point(5);
    assert_eq!(patrol, Patrol { index: 3, forward: false });
}
