use goblin_fortress::{
    Draws, Goblin, GoblinMessage, GoblinState, Position, DEPOSIT_THRESHOLD, DELAY_MAX_MS,
    DELAY_MIN_MS, FATIGUE_GAIN_MAX, FATIGUE_GAIN_MIN, FIND_MAX, FIND_MIN,
};

fn draws(dx: i32, dy: i32, fatigue_gain: u32, found: Option<u32>) -> Draws {
    Draws { dx, dy, fatigue_gain, found, delay_ms: 100 }
}

#[test]
fn new_state_starts_at_origin() {
    let s = GoblinState::new();
    assert_eq!(s.pos, Position { x: 0, y: 0 });
    assert_eq!(s.ore, 0);
    assert_eq!(s.fatigue, 0);
    let g = Goblin::new(4);
    assert_eq!(g.id(), 4);
    assert_eq!(g.state(), s);
}

#[test]
fn third_tick_deposits_seven_and_resets() {
    let mut s = GoblinState::new();
    let m1 = s.advance(2, &draws(1, 0, 10_000, Some(3)));
    assert_eq!(m1, GoblinMessage::Report { id: 2, pos: Position { x: 1, y: 0 }, ore: 3, fatigue: 10_000 });
    let m2 = s.advance(2, &draws(0, -1, 12_000, None));
    assert_eq!(m2, GoblinMessage::Report { id: 2, pos: Position { x: 1, y: -1 }, ore: 3, fatigue: 22_000 });
    let m3 = s.advance(2, &draws(-1, 1, 9_000, Some(4)));
    assert_eq!(m3, GoblinMessage::Deposit { id: 2, ore: 7 });
    assert_eq!(s.ore, 0);
    assert_eq!(s.fatigue, 0);
    assert_eq!(s.pos, Position { x: 0, y: 0 });
}

#[test]
fn fatigue_at_threshold_does_not_deposit() {
    let mut s = GoblinState { pos: Position { x: 5, y: -5 }, ore: 9, fatigue: 27_000 };
    let m = s.advance(1, &draws(0, 0, 3_000, None));
    assert_eq!(m, GoblinMessage::Report { id: 1, pos: Position { x: 5, y: -5 }, ore: 9, fatigue: DEPOSIT_THRESHOLD });
    assert_eq!(s.fatigue, 30_000);
    let m = s.advance(1, &draws(0, 0, 1, None));
    assert_eq!(m, GoblinMessage::Deposit { id: 1, ore: 9 });
    assert_eq!((s.ore, s.fatigue), (0, 0));
}

#[test]
fn deposit_of_nothing_still_resets() {
    let mut s = GoblinState { pos: Position { x: 0, y: 0 }, ore: 0, fatigue: 29_500 };
    let m = s.advance(0, &draws(1, 1, 1_000, None));
    assert_eq!(m, GoblinMessage::Deposit { id: 0, ore: 0 });
    assert_eq!(s, GoblinState { pos: Position { x: 1, y: 1 }, ore: 0, fatigue: 0 });
}

#[test]
fn draws_stay_in_range() {
    let mut g = Goblin::new(0);
    for _ in 0..2000 {
        let d = g.draw();
        assert!((-1..=1).contains(&d.dx));
        assert!((-1..=1).contains(&d.dy));
        assert!(d.fatigue_gain >= FATIGUE_GAIN_MIN && d.fatigue_gain < FATIGUE_GAIN_MAX);
        if let Some(f) = d.found {
            assert!(f >= FIND_MIN && f <= FIND_MAX);
        }
        assert!(d.delay_ms >= DELAY_MIN_MS && d.delay_ms < DELAY_MAX_MS);
    }
    assert_eq!(g.state(), GoblinState::new());
}

#[test]
fn draws_vary_over_the_whole_range() {
    let mut g = Goblin::new(1);
    let mut finds = [false; 6];
    let mut steps = [false; 3];
    let mut none_found = false;
    let (mut lo_gain, mut hi_gain) = (u32::MAX, 0u32);
    for _ in 0..2000 {
        let d = g.draw();
        steps[(d.dx + 1) as usize] = true;
        match d.found {
            Some(f) => finds[f as usize] = true,
            None => none_found = true,
        }
        lo_gain = lo_gain.min(d.fatigue_gain);
        hi_gain = hi_gain.max(d.fatigue_gain);
    }
    assert!(steps.iter().all(|b| *b));
    assert!(finds[1..].iter().all(|b| *b));
    assert!(none_found);
    assert!(lo_gain < 1_100 && hi_gain > 4_900);
}

#[test]
fn same_seed_repeats_the_same_ticks() {
    let mut a = Goblin::new(3);
    let mut b = Goblin::new(3);
    for _ in 0..200 {
        let ta = a.step();
        let tb = b.step();
        assert_eq!(ta, tb);
        assert_eq!(a.state(), b.state());
    }
}

#[test]
fn steps_deposit_only_above_threshold() {
    let mut g = Goblin::new(2);
    let mut deposits = 0;
    let mut carried: u64 = 0;
    for _ in 0..500 {
        let before = g.state();
        assert!(g.can_step());
        let t = g.step();
        let reached = before.fatigue + t.draws.fatigue_gain;
        let found = t.draws.found.unwrap_or(0);
        match t.message {
            GoblinMessage::Deposit { id, ore } => {
                assert_eq!(id, 2);
                assert!(reached > DEPOSIT_THRESHOLD);
                assert_eq!(ore, before.ore + found);
                assert_eq!((g.state().ore, g.state().fatigue), (0, 0));
                deposits += 1;
                carried += ore as u64;
            }
            GoblinMessage::Report { id, pos, ore, fatigue } => {
                assert_eq!(id, 2);
                assert!(reached <= DEPOSIT_THRESHOLD);
                assert_eq!(fatigue, reached);
                assert_eq!(ore, before.ore + found);
                assert_eq!(pos, g.state().pos);
            }
        }
        assert_eq!(g.state().pos.x, before.pos.x + t.draws.dx);
        assert_eq!(g.state().pos.y, before.pos.y + t.draws.dy);
        assert!(g.state().ore <= 150);
    }
    assert!(deposits >= 500 / 31);
    assert!(carried > 0);
}
