use platformer_2d::common::animsprite::{
    animate_sprite, AnimationIndices, AnimationResetFlag, AnimationTimer, AtlasSprite,
};

fn count_fires(timer: &mut AnimationTimer, deltas: &[u64]) -> usize {
    let mut fires = 0;
    for delta in deltas {
        timer.tick(*delta);
        if timer.just_finished() {
            fires += 1;
        }
    }
    fires
}

#[test]
fn fresh_timer_has_not_fired() {
    let timer = AnimationTimer::repeating(100);
    assert_eq!(timer.interval(), 100);
    assert_eq!(timer.elapsed(), 0);
    assert!(!timer.just_finished());
}

#[test]
fn timer_accumulates_below_its_interval() {
    let mut timer = AnimationTimer::repeating(100);
    timer.tick(30);
    assert!(!timer.just_finished());
    assert_eq!(timer.elapsed(), 30);
    timer.tick(69);
    assert!(!timer.just_finished());
    assert_eq!(timer.elapsed(), 99);
    assert_eq!(timer.interval(), 100);
}

#[test]
fn timer_fires_when_the_interval_is_reached() {
    let mut timer = AnimationTimer::repeating(100);
    timer.tick(40);
    timer.tick(60);
    assert!(timer.just_finished());
    assert_eq!(timer.elapsed(), 0);
}

#[test]
fn deltas_summing_to_the_interval_fire_exactly_once() {
    let mut timer = AnimationTimer::repeating(100_000_000);
    let fires = count_fires(&mut timer, &[16_000_000, 0, 34_000_000, 49_999_999, 1]);
    assert_eq!(fires, 1);
    assert!(timer.just_finished());
    assert_eq!(timer.elapsed(), 0);
}

#[test]
fn zero_steps_after_the_firing_do_not_fire_again() {
    let mut timer = AnimationTimer::repeating(10);
    let fires = count_fires(&mut timer, &[4, 6, 0, 0]);
    assert_eq!(fires, 1);
    assert!(!timer.just_finished());
    assert_eq!(timer.elapsed(), 0);
}

#[test]
fn one_delta_of_the_whole_interval_fires() {
    let mut timer = AnimationTimer::repeating(100);
    timer.tick(100);
    assert!(timer.just_finished());
    assert_eq!(timer.elapsed(), 0);
}

#[test]
fn just_finished_lasts_one_tick() {
    let mut timer = AnimationTimer::repeating(100);
    timer.tick(100);
    assert!(timer.just_finished());
    timer.tick(1);
    assert!(!timer.just_finished());
    assert_eq!(timer.elapsed(), 1);
}

#[test]
fn timer_drops_what_goes_beyond_the_interval() {
    let mut timer = AnimationTimer::repeating(100);
    timer.tick(250);
    assert!(timer.just_finished());
    assert_eq!(timer.elapsed(), 0);
    timer.tick(99);
    assert!(!timer.just_finished());
    assert_eq!(timer.elapsed(), 99);
    timer.tick(1);
    assert!(timer.just_finished());
    assert_eq!(timer.elapsed(), 0);
}

#[test]
fn timer_repeats() {
    let mut timer = AnimationTimer::repeating(3);
    let fires = count_fires(&mut timer, &[1, 1, 1, 1, 1, 1, 1, 1, 1]);
    assert_eq!(fires, 3);
    assert_eq!(timer.elapsed(), 0);
}

#[test]
fn timer_takes_the_longest_delta() {
    let mut timer = AnimationTimer::repeating(u64::MAX);
    timer.tick(u64::MAX - 1);
    assert!(!timer.just_finished());
    assert_eq!(timer.elapsed(), u64::MAX - 1);
    timer.tick(u64::MAX);
    assert!(timer.just_finished());
    assert_eq!(timer.elapsed(), 0);
}

#[test]
fn timer_without_interval_fires_on_every_tick() {
    let mut timer = AnimationTimer::repeating(0);
    assert!(!timer.just_finished());
    let fires = count_fires(&mut timer, &[0, 5, 0]);
    assert_eq!(fires, 3);
    assert_eq!(timer.elapsed(), 0);
}

#[test]
fn cursor_moves_on_below_the_last_frame() {
    let clip = AnimationIndices { first: 10, last: 19 };
    assert_eq!(clip.next_index(10), 11);
    assert_eq!(clip.next_index(18), 19);
}

#[test]
fn cursor_wraps_at_the_last_frame() {
    let clip = AnimationIndices { first: 10, last: 19 };
    assert_eq!(clip.next_index(19), 10);
}

#[test]
fn cursor_beyond_the_clip_falls_back_to_the_first_frame() {
    let clip = AnimationIndices { first: 0, last: 9 };
    assert_eq!(clip.next_index(10), 0);
    assert_eq!(clip.next_index(23), 0);
    assert_eq!(clip.next_index(usize::MAX), 0);
}

#[test]
fn cursor_below_the_clip_climbs_into_it() {
    let clip = AnimationIndices { first: 20, last: 23 };
    let mut index = 17;
    let mut seen = vec![];
    for _ in 0..8 {
        index = clip.next_index(index);
        seen.push(index);
    }
    assert_eq!(seen, vec![18, 19, 20, 21, 22, 23, 20, 21]);
}

#[test]
fn cursor_cycles_through_the_clip() {
    let clip = AnimationIndices { first: 0, last: 9 };
    let mut index = 0;
    for expected in [1, 2, 3, 4, 5, 6, 7, 8, 9, 0, 1] {
        index = clip.next_index(index);
        assert_eq!(index, expected);
    }
}

#[test]
fn clip_of_one_frame_stays_on_it() {
    let clip = AnimationIndices { first: 5, last: 5 };
    assert_eq!(clip.next_index(5), 5);
}

#[test]
fn sprite_waits_for_the_timer() {
    let clip = AnimationIndices { first: 0, last: 9 };
    let mut timer = AnimationTimer::repeating(100);
    let mut sprite = AtlasSprite { index: 4, flip_x: true };
    animate_sprite(99, &clip, &mut timer, &mut sprite);
    assert_eq!(sprite, AtlasSprite { index: 4, flip_x: true });
    assert_eq!(timer.elapsed(), 99);
    assert!(!timer.just_finished());
}

#[test]
fn sprite_steps_when_the_timer_fires() {
    let clip = AnimationIndices { first: 0, last: 9 };
    let mut timer = AnimationTimer::repeating(100);
    let mut sprite = AtlasSprite { index: 4, flip_x: true };
    animate_sprite(99, &clip, &mut timer, &mut sprite);
    animate_sprite(1, &clip, &mut timer, &mut sprite);
    assert_eq!(sprite, AtlasSprite { index: 5, flip_x: true });
    assert!(timer.just_finished());
    assert_eq!(timer.elapsed(), 0);
}

#[test]
fn sprite_wraps_when_the_timer_fires_on_the_last_frame() {
    let clip = AnimationIndices { first: 20, last: 23 };
    let mut timer = AnimationTimer::repeating(100);
    let mut sprite = AtlasSprite { index: 23, flip_x: false };
    animate_sprite(100, &clip, &mut timer, &mut sprite);
    assert_eq!(sprite, AtlasSprite { index: 20, flip_x: false });
}

#[test]
fn sprite_steps_once_however_long_the_tick() {
    let clip = AnimationIndices { first: 0, last: 9 };
    let mut timer = AnimationTimer::repeating(100);
    let mut sprite = AtlasSprite { index: 0, flip_x: false };
    animate_sprite(1_000, &clip, &mut timer, &mut sprite);
    assert_eq!(sprite.index, 1);
}

#[test]
fn reset_flag_holds_its_value() {
    let flag = AnimationResetFlag(true);
    assert!(flag.0);
    assert_eq!(flag, AnimationResetFlag(true));
    assert_ne!(flag, AnimationResetFlag(false));
}
