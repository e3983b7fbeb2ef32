use animated_sprite::animation::animate_sprite;
use animated_sprite::animation::AnimationIndices;
use animated_sprite::animation::AnimationTimer;
use animated_sprite::animation::SpriteAnimation;

const TENTH: u64 = 100_000_000;

fn run_cycle() -> AnimationIndices {
    AnimationIndices { first: 1, last: 6 }
}

#[test]
fn range_needs_first_before_last() {
    assert_eq!(AnimationIndices::new(1, 6), Some(AnimationIndices { first: 1, last: 6 }));
    assert_eq!(AnimationIndices::new(3, 3), Some(AnimationIndices { first: 3, last: 3 }));
    assert_eq!(AnimationIndices::new(6, 1), None);
}

#[test]
fn range_holds_its_frames_only() {
    let indices = run_cycle();
    assert!(!indices.holds(0));
    assert!(indices.holds(1));
    assert!(indices.holds(4));
    assert!(indices.holds(6));
    assert!(!indices.holds(7));
}

#[test]
fn next_index_steps_and_wraps_to_first() {
    let indices = run_cycle();
    assert_eq!(indices.next_index(1), 2);
    assert_eq!(indices.next_index(5), 6);
    assert_eq!(indices.next_index(6), 1);
}

#[test]
fn next_index_of_a_single_frame_is_that_frame() {
    let indices = AnimationIndices { first: 4, last: 4 };
    assert_eq!(indices.next_index(4), 4);
}

#[test]
fn next_index_wraps_at_the_largest_index() {
    let indices = AnimationIndices { first: 7, last: usize::MAX };
    assert_eq!(indices.next_index(usize::MAX), 7);
}

#[test]
fn advance_moves_only_when_the_timer_finished() {
    let indices = run_cycle();
    assert_eq!(indices.advance(3, false), 3);
    assert_eq!(indices.advance(3, true), 4);
    assert_eq!(indices.advance(6, false), 6);
    assert_eq!(indices.advance(6, true), 1);
}

#[test]
fn five_elapsed_ticks_walk_the_range_and_the_sixth_wraps() {
    let indices = run_cycle();
    let mut timer = AnimationTimer::new(TENTH);
    let mut index: usize = indices.first;
    let mut seen = vec![index];
    for _ in 0..5 {
        animate_sprite(&indices, &mut timer, &mut index, TENTH);
        assert!(timer.just_finished());
        seen.push(index);
    }
    assert_eq!(seen, vec![1, 2, 3, 4, 5, 6]);
    animate_sprite(&indices, &mut timer, &mut index, TENTH);
    assert_eq!(index, 1);
}

#[test]
fn a_tick_short_of_the_period_keeps_the_frame() {
    let indices = run_cycle();
    let mut timer = AnimationTimer::new(TENTH);
    let mut index: usize = 3;
    animate_sprite(&indices, &mut timer, &mut index, TENTH - 1);
    assert!(!timer.just_finished());
    assert_eq!(index, 3);
}

#[test]
fn a_tick_of_no_time_keeps_the_frame() {
    let indices = run_cycle();
    let mut timer = AnimationTimer::new(TENTH);
    let mut index: usize = 1;
    animate_sprite(&indices, &mut timer, &mut index, 0);
    assert_eq!(index, 1);
}

#[test]
fn short_ticks_add_up_to_a_cycle() {
    let indices = run_cycle();
    let mut timer = AnimationTimer::new(TENTH);
    let mut index: usize = 1;
    animate_sprite(&indices, &mut timer, &mut index, 60_000_000);
    assert_eq!(index, 1);
    animate_sprite(&indices, &mut timer, &mut index, 60_000_000);
    assert_eq!(index, 2);
    // 20 ms are left over from the first cycle
    animate_sprite(&indices, &mut timer, &mut index, 79_999_999);
    assert_eq!(index, 2);
    animate_sprite(&indices, &mut timer, &mut index, 1);
    assert_eq!(index, 3);
}

#[test]
fn a_long_tick_advances_one_frame_and_keeps_the_rest() {
    let indices = run_cycle();
    let mut timer = AnimationTimer::new(TENTH);
    let mut index: usize = 1;
    animate_sprite(&indices, &mut timer, &mut index, 250_000_000);
    assert_eq!(index, 2);
    animate_sprite(&indices, &mut timer, &mut index, 49_999_999);
    assert_eq!(index, 2);
    animate_sprite(&indices, &mut timer, &mut index, 1);
    assert_eq!(index, 3);
}

#[test]
fn a_timer_of_period_zero_fires_on_every_tick() {
    let indices = run_cycle();
    let mut timer = AnimationTimer::new(0);
    assert!(!timer.just_finished());
    let mut index: usize = 5;
    animate_sprite(&indices, &mut timer, &mut index, 0);
    assert!(timer.just_finished());
    assert_eq!(index, 6);
    animate_sprite(&indices, &mut timer, &mut index, 7);
    assert_eq!(index, 1);
}

#[test]
fn the_cycle_count_is_cut_to_32_bits() {
    let mut timer = AnimationTimer::new(1);
    timer.tick(1u64 << 32);
    assert!(!timer.just_finished());
    timer.tick((1u64 << 32) + 1);
    assert!(timer.just_finished());
}

#[test]
fn a_tick_over_a_multiple_of_the_count_moves_the_frame() {
    let indices = run_cycle();
    let mut timer = AnimationTimer::new(1);
    let mut index: usize = 1;
    animate_sprite(&indices, &mut timer, &mut index, 1u64 << 32);
    assert!(timer.finished());
    assert!(!timer.just_finished());
    assert_eq!(index, 2);
    animate_sprite(&indices, &mut timer, &mut index, 3u64 << 32);
    assert_eq!(index, 3);
}

#[test]
fn an_animation_moves_on_a_tick_over_a_multiple_of_the_count() {
    let mut animation = SpriteAnimation::start(run_cycle(), 1).unwrap();
    assert_eq!(animation.tick(1u64 << 32), 2);
}

#[test]
fn a_new_timer_has_not_finished() {
    let timer = AnimationTimer::new(TENTH);
    assert!(!timer.finished());
    assert!(!timer.just_finished());
}

#[test]
fn a_new_timer_of_period_zero_has_not_finished() {
    let timer = AnimationTimer::new(0);
    assert!(!timer.finished());
}

#[test]
fn the_timer_has_finished_exactly_when_the_period_is_reached() {
    let mut timer = AnimationTimer::new(TENTH);
    timer.tick(TENTH - 1);
    assert!(!timer.finished());
    timer.tick(1);
    assert!(timer.finished());
    timer.tick(0);
    assert!(!timer.finished());
    timer.tick(u64::MAX);
    assert!(timer.finished());
}

#[test]
fn the_timer_finishes_only_on_the_tick_that_ends_a_cycle() {
    let mut timer = AnimationTimer::new(TENTH);
    timer.tick(TENTH);
    assert!(timer.just_finished());
    timer.tick(1);
    assert!(!timer.just_finished());
}

#[test]
fn the_frame_stays_in_range_over_uneven_ticks() {
    let indices = run_cycle();
    let mut timer = AnimationTimer::new(TENTH);
    let mut index: usize = indices.first;
    let deltas: [u64; 8] = [0, 16_000_000, 33_000_000, 100_000_000, 1, 999_999_999, 70_000_000, u64::MAX];
    for round in 0..50 {
        animate_sprite(&indices, &mut timer, &mut index, deltas[round % deltas.len()]);
        assert!(indices.holds(index));
    }
}

#[test]
fn an_index_outside_the_range_only_counts_up() {
    let indices = run_cycle();
    assert_eq!(indices.next_index(0), 1);
    assert_eq!(indices.next_index(7), 8);
}

#[test]
fn an_animation_starts_at_the_first_frame() {
    let animation = SpriteAnimation::start(run_cycle(), TENTH).unwrap();
    assert_eq!(animation.index(), 1);
    assert_eq!(animation.indices(), run_cycle());
}

#[test]
fn an_animation_needs_a_range() {
    assert!(SpriteAnimation::start(AnimationIndices { first: 6, last: 1 }, TENTH).is_none());
}

#[test]
fn an_animation_cycles_through_its_range() {
    let mut animation = SpriteAnimation::start(run_cycle(), TENTH).unwrap();
    let mut seen = Vec::new();
    for _ in 0..13 {
        seen.push(animation.tick(TENTH));
    }
    assert_eq!(seen, vec![2, 3, 4, 5, 6, 1, 2, 3, 4, 5, 6, 1, 2]);
    assert_eq!(animation.index(), 2);
}

#[test]
fn an_animation_waits_for_its_timer() {
    let mut animation = SpriteAnimation::start(run_cycle(), TENTH).unwrap();
    assert_eq!(animation.tick(40_000_000), 1);
    assert_eq!(animation.tick(40_000_000), 1);
    assert_eq!(animation.tick(40_000_000), 2);
}
