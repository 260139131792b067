use migration_sim::animation::frames_of;
use migration_sim::animation::update_animation;
use migration_sim::animation::AnimationComplete;
use migration_sim::animation::AnimationPlayerState;
use migration_sim::animation::SpriteAnimationPlayer;
use migration_sim::assets::SfxKey;
use migration_sim::player::animation_completed;
use migration_sim::player::handle_player_action;

#[test]
fn frames_follow_each_other_round_the_strip() {
    let mut ship = SpriteAnimationPlayer::ship();
    assert_eq!(ship.get_atlas_index(), 0);
    assert!(!ship.changed());
    for expected in [1, 2, 3, 0, 1] {
        assert!(!ship.update_timer(true));
        assert!(ship.changed());
        assert_eq!(ship.get_atlas_index(), expected);
    }
    assert!(!ship.update_timer(false));
    assert!(!ship.changed());
    assert_eq!(ship.get_atlas_index(), 1);
}

#[test]
fn a_oneshot_animation_completes_after_its_last_frame() {
    let mut drop = SpriteAnimationPlayer::raindrop();
    for _ in 0..7 {
        assert!(!drop.update_timer(true));
    }
    assert_eq!(drop.get_atlas_index(), 7);
    assert!(!drop.update_timer(false));
    assert!(drop.update_timer(true));
    assert_eq!(drop.get_atlas_index(), 0);

    let mut breath = SpriteAnimationPlayer::breath();
    for _ in 0..15 {
        assert!(!breath.update_timer(true));
    }
    assert_eq!(breath.get_atlas_index(), 8 + 15);
    assert!(breath.update_timer(true));
    assert_eq!(breath.get_atlas_index(), 8);
}

#[test]
fn an_animation_that_repeats_never_completes() {
    let mut wave = SpriteAnimationPlayer::wave();
    for _ in 0..40 {
        assert!(!wave.update_timer(true));
    }
    assert_eq!(wave.get_atlas_index(), 40 % 9);
}

#[test]
fn each_strip_starts_at_its_place_in_the_atlas() {
    assert_eq!(SpriteAnimationPlayer::new().get_atlas_index(), 0);
    assert_eq!(SpriteAnimationPlayer::swimming().get_atlas_index(), 0);
    assert_eq!(SpriteAnimationPlayer::bird().get_atlas_index(), 48);
    assert_eq!(SpriteAnimationPlayer::breath().get_atlas_index(), 8);
    assert_eq!(SpriteAnimationPlayer::breaching().get_atlas_index(), 24);
    assert_eq!(SpriteAnimationPlayer::baby_swimming().get_atlas_index(), 56);
    assert_eq!(SpriteAnimationPlayer::fish().get_atlas_index(), 0);
    let mut bird = SpriteAnimationPlayer::bird();
    bird.set_frame(7);
    assert_eq!(bird.get_atlas_index(), 55);
}

#[test]
fn strips_have_their_lengths_and_intervals() {
    assert_eq!(frames_of(AnimationPlayerState::Ship), 4);
    assert_eq!(frames_of(AnimationPlayerState::Bird), 8);
    assert_eq!(frames_of(AnimationPlayerState::Wave), 9);
    assert_eq!(frames_of(AnimationPlayerState::WhaleBreath), 16);
    assert_eq!(frames_of(AnimationPlayerState::WhaleBreaching), 24);
    assert_eq!(SpriteAnimationPlayer::new().frame_interval(), 230);
    assert_eq!(SpriteAnimationPlayer::baby_swimming().frame_interval(), 180);
    assert_eq!(SpriteAnimationPlayer::wave().frame_interval(), 450);
    assert_eq!(SpriteAnimationPlayer::bird().frame_interval(), 250);
    assert_eq!(SpriteAnimationPlayer::raindrop().frame_interval(), 100);
    assert_eq!(SpriteAnimationPlayer::fish().frame_interval(), 200);
    assert_eq!(SpriteAnimationPlayer::breath().frame_interval(), 150);
    let mut whale = SpriteAnimationPlayer::new();
    whale.set_frame_interval(290);
    assert_eq!(whale.frame_interval(), 290);
    assert!(whale.in_state(AnimationPlayerState::WhaleSwimming));
    assert_eq!(whale.state(), AnimationPlayerState::WhaleSwimming);
    assert_eq!(SpriteAnimationPlayer::ship().state(), AnimationPlayerState::Ship);
}

#[test]
fn only_swimming_and_breaching_can_be_changed_to() {
    let mut whale = SpriteAnimationPlayer::new();
    whale.set_frame(5);
    whale.update_state(AnimationPlayerState::WhaleSwimming);
    assert_eq!(whale.get_atlas_index(), 5);
    whale.update_state(AnimationPlayerState::Bird);
    assert!(whale.in_state(AnimationPlayerState::WhaleSwimming));
    assert_eq!(whale.get_atlas_index(), 5);
    whale.update_state(AnimationPlayerState::WhaleBreaching);
    assert!(whale.in_state(AnimationPlayerState::WhaleBreaching));
    assert_eq!(whale.get_atlas_index(), 24);
    assert_eq!(whale.frame_interval(), 180);
    whale.update_state(AnimationPlayerState::WhaleSwimming);
    assert!(whale.in_state(AnimationPlayerState::WhaleSwimming));
    assert_eq!(whale.frame_interval(), 230);
}

#[test]
fn a_tick_reports_the_end_and_the_new_frame() {
    let mut drop = SpriteAnimationPlayer::raindrop();
    assert_eq!(update_animation(&mut drop, false), (None, None));
    assert_eq!(update_animation(&mut drop, true), (None, Some(1)));
    drop.set_frame(7);
    assert_eq!(
        update_animation(&mut drop, true),
        (Some(AnimationComplete(AnimationPlayerState::RainDrop)), Some(0))
    );
}

#[test]
fn the_whale_breaches_and_swims_again() {
    let mut whale = SpriteAnimationPlayer::new();
    let sound = handle_player_action(&mut whale);
    assert_eq!(sound.key, SfxKey::WhaleBreach);
    assert!(whale.in_state(AnimationPlayerState::WhaleBreaching));
    let mut complete = None;
    for _ in 0..24 {
        if whale.update_timer(true) {
            complete = Some(AnimationComplete(AnimationPlayerState::WhaleBreaching));
        }
    }
    let event = complete.unwrap();
    animation_completed(&AnimationComplete(AnimationPlayerState::RainDrop), &mut whale);
    assert!(whale.in_state(AnimationPlayerState::WhaleBreaching));
    animation_completed(&event, &mut whale);
    assert!(whale.in_state(AnimationPlayerState::WhaleSwimming));
}
