use knight_jumper::animation::{animate_sprites, AnimationConfig, AnimationState, SpriteAnimation};
use knight_jumper::contact::{Lean, Side};
use knight_jumper::enemy::{update_patrol_movement, Heading, Patrol};
use knight_jumper::ground::{ground_hit, update_platform_velocity, PlatformVelocity, ProbeHit};
use knight_jumper::input::{detect_player_input, Keys, PlayerInput};
use knight_jumper::killzone::{
    detect_killzone_collision, tick_death_timer, DeathTimer, KillZoneCollision, DEATH_DELAY_NANOS,
};
use knight_jumper::movement::{decide, flip_player_sprite, Drive, Footing, Jump, PlayerMovement};
use knight_jumper::pickups::{collect_coins, CoinCollision};
use knight_jumper::platform::modify_contacts;
use knight_jumper::spawn::{spawn_point, SpawnPoint};
use knight_jumper::state::{increment_score, restart_game, GameState, Score};
use knight_jumper::timer::TimerMode;
use knight_jumper::tips::{decimal_string, tip_name, update_score_text};
use knight_jumper::walls::{find_walls, Contact, WallContacts};

// One-way platforms

#[test]
fn contact_without_a_platform_stays() {
    assert!(modify_contacts(false, false, &vec![Lean::Against, Lean::Along]));
    assert!(modify_contacts(false, false, &Vec::new()));
}

#[test]
fn platform_lets_through_what_comes_from_below() {
    assert!(!modify_contacts(true, false, &vec![Lean::Against]));
    assert!(!modify_contacts(false, true, &vec![Lean::Along]));
    assert!(!modify_contacts(true, false, &vec![Lean::Slight, Lean::Along, Lean::Against]));
}

#[test]
fn platform_carries_what_comes_from_above() {
    assert!(modify_contacts(true, false, &vec![Lean::Along]));
    assert!(modify_contacts(false, true, &vec![Lean::Against]));
    assert!(modify_contacts(true, false, &vec![Lean::Slight]));
    assert!(modify_contacts(false, true, &vec![Lean::Slight, Lean::Against]));
    assert!(modify_contacts(true, false, &Vec::new()));
}

#[test]
fn of_two_platforms_the_first_counts() {
    assert!(modify_contacts(true, true, &vec![Lean::Along]));
    assert!(!modify_contacts(true, true, &vec![Lean::Against]));
}

// Walls

fn contact(player: Side, other_is_sensor: bool, normal: Option<Lean>) -> Contact {
    Contact { player, other_is_sensor, normal }
}

#[test]
fn no_contacts_no_walls() {
    assert_eq!(find_walls(&Vec::new()), WallContacts { left: false, right: false });
}

#[test]
fn wall_is_on_the_side_that_the_normal_points_away_from() {
    let walls = find_walls(&vec![contact(Side::Second, false, Some(Lean::Along))]);
    assert_eq!(walls, WallContacts { left: true, right: false });
    let walls = find_walls(&vec![contact(Side::Second, false, Some(Lean::Against))]);
    assert_eq!(walls, WallContacts { left: false, right: true });
    let walls = find_walls(&vec![contact(Side::First, false, Some(Lean::Along))]);
    assert_eq!(walls, WallContacts { left: false, right: true });
    let walls = find_walls(&vec![contact(Side::First, false, Some(Lean::Against))]);
    assert_eq!(walls, WallContacts { left: true, right: false });
}

#[test]
fn sensors_floors_and_empty_contacts_are_no_walls() {
    let walls = find_walls(&vec![
        contact(Side::First, true, Some(Lean::Along)),
        contact(Side::Second, true, Some(Lean::Along)),
        contact(Side::First, false, Some(Lean::Slight)),
        contact(Side::Second, false, None),
    ]);
    assert_eq!(walls, WallContacts { left: false, right: false });
}

#[test]
fn walls_on_both_sides_are_both_found() {
    let walls = find_walls(&vec![
        contact(Side::First, false, Some(Lean::Slight)),
        contact(Side::First, false, Some(Lean::Along)),
        contact(Side::Second, false, Some(Lean::Along)),
    ]);
    assert_eq!(walls, WallContacts { left: true, right: true });
}

// Ground

fn hit(is_sensor: bool, faces_up: bool, has_velocity: bool) -> ProbeHit {
    ProbeHit { is_sensor, faces_up, has_velocity }
}

#[test]
fn ground_is_the_first_hit_that_is_no_sensor_and_faces_up() {
    assert_eq!(ground_hit(&Vec::new()), None);
    assert_eq!(ground_hit(&vec![hit(true, true, false), hit(false, false, false)]), None);
    let hits = vec![hit(true, true, false), hit(false, false, true), hit(false, true, false),
        hit(false, true, true)];
    assert_eq!(ground_hit(&hits), Some(2));
}

#[test]
fn velocity_is_inherited_from_the_first_ground_hit_only() {
    assert_eq!(update_platform_velocity(&Vec::new()), PlatformVelocity::Clear);
    let moving = vec![hit(true, true, true), hit(false, true, true), hit(false, true, false)];
    assert_eq!(update_platform_velocity(&moving), PlatformVelocity::Inherit(1));
    let still = vec![hit(false, true, false), hit(false, true, true)];
    assert_eq!(update_platform_velocity(&still), PlatformVelocity::Clear);
    let wall = vec![hit(false, false, true)];
    assert_eq!(update_platform_velocity(&wall), PlatformVelocity::Clear);
}

// Input

#[test]
fn default_input_asks_for_nothing() {
    assert_eq!(PlayerInput::default(), PlayerInput { movement_direction: 0, jump_requested: false });
}

#[test]
fn direction_follows_the_held_keys() {
    let mut input = PlayerInput { movement_direction: 1, jump_requested: false };
    detect_player_input(Keys { left: true, right: false, jump: false }, &mut input);
    assert_eq!(input.movement_direction, -1);
    detect_player_input(Keys { left: false, right: true, jump: false }, &mut input);
    assert_eq!(input.movement_direction, 1);
    detect_player_input(Keys { left: true, right: true, jump: false }, &mut input);
    assert_eq!(input.movement_direction, 0);
    detect_player_input(Keys { left: false, right: false, jump: false }, &mut input);
    assert_eq!(input.movement_direction, 0);
    assert!(!input.jump_requested);
}

#[test]
fn jump_press_stays_until_it_is_cleared() {
    let mut input = PlayerInput::default();
    detect_player_input(Keys { left: false, right: false, jump: true }, &mut input);
    assert!(input.jump_requested);
    detect_player_input(Keys { left: false, right: false, jump: false }, &mut input);
    assert!(input.jump_requested);
}

// Movement

fn footing(grounded: bool, coyote: bool, jump_buffer: bool) -> Footing {
    Footing { grounded, coyote, jump_buffer, walls: WallContacts { left: false, right: false } }
}

fn jump_of(jump_requested: bool, footing: Footing) -> Jump {
    let mut input = PlayerInput { movement_direction: 0, jump_requested };
    let outcome = decide(&mut input, footing);
    assert!(!input.jump_requested);
    outcome.jump
}

#[test]
fn jump_decision_covers_every_case() {
    assert_eq!(jump_of(true, footing(true, false, false)), Jump::Leap);
    assert_eq!(jump_of(true, footing(false, true, false)), Jump::Leap);
    assert_eq!(jump_of(false, footing(true, false, true)), Jump::Leap);
    assert_eq!(jump_of(false, footing(false, true, true)), Jump::Leap);
    assert_eq!(jump_of(true, footing(false, false, false)), Jump::Buffer);
    assert_eq!(jump_of(true, footing(false, false, true)), Jump::Buffer);
    assert_eq!(jump_of(false, footing(false, false, true)), Jump::Nothing);
    assert_eq!(jump_of(false, footing(true, true, false)), Jump::Nothing);
    assert_eq!(jump_of(false, footing(false, false, false)), Jump::Nothing);
}

#[test]
fn walls_block_only_the_direction_they_are_in() {
    let walls = WallContacts { left: true, right: false };
    let footing = Footing { grounded: true, coyote: false, jump_buffer: false, walls };
    let mut left = PlayerInput { movement_direction: -1, jump_requested: false };
    let outcome = decide(&mut left, footing);
    assert_eq!(outcome.drive, Drive::Brake);
    assert_eq!(
        outcome.message,
        PlayerMovement { is_moving: true, is_grounded: true, facing_left: true }
    );
    let mut right = PlayerInput { movement_direction: 1, jump_requested: false };
    let outcome = decide(&mut right, footing);
    assert_eq!(outcome.drive, Drive::Run);
    assert_eq!(
        outcome.message,
        PlayerMovement { is_moving: true, is_grounded: true, facing_left: false }
    );
    let mut still = PlayerInput { movement_direction: 0, jump_requested: false };
    let outcome = decide(&mut still, footing);
    assert_eq!(outcome.drive, Drive::Brake);
    assert_eq!(
        outcome.message,
        PlayerMovement { is_moving: false, is_grounded: true, facing_left: false }
    );
}

#[test]
fn sprite_keeps_its_last_direction_when_the_player_stops() {
    let moving_left = PlayerMovement { is_moving: true, is_grounded: true, facing_left: true };
    let moving_right = PlayerMovement { is_moving: true, is_grounded: true, facing_left: false };
    let stopped = PlayerMovement { is_moving: false, is_grounded: true, facing_left: false };
    assert!(flip_player_sprite(true, &Vec::new()));
    assert!(!flip_player_sprite(false, &Vec::new()));
    assert!(flip_player_sprite(true, &vec![stopped]));
    assert!(flip_player_sprite(false, &vec![moving_left, stopped]));
    assert!(!flip_player_sprite(true, &vec![moving_left, moving_right, stopped]));
    assert!(flip_player_sprite(false, &vec![moving_right, stopped, moving_left]));
}

// Kill zones

fn kill_zone_collision(zone: [bool; 4], players: [bool; 2]) -> KillZoneCollision {
    KillZoneCollision {
        collider1_in_kill_zone: zone[0],
        collider2_in_kill_zone: zone[1],
        collider1_is_kill_zone: zone[2],
        collider2_is_kill_zone: zone[3],
        body1_is_player: players[0],
        body2_is_player: players[1],
    }
}

#[test]
fn player_dies_of_any_kind_of_kill_zone() {
    for k in 0..4 {
        let mut zone = [false; 4];
        zone[k] = true;
        let victim = detect_killzone_collision(kill_zone_collision(zone, [false, true]));
        assert_eq!(victim, Some(Side::Second));
        let victim = detect_killzone_collision(kill_zone_collision(zone, [true, false]));
        assert_eq!(victim, Some(Side::First));
        let victim = detect_killzone_collision(kill_zone_collision(zone, [true, true]));
        assert_eq!(victim, Some(Side::First));
        let victim = detect_killzone_collision(kill_zone_collision(zone, [false, false]));
        assert_eq!(victim, None);
    }
}

#[test]
fn nobody_dies_without_a_kill_zone() {
    let victim = detect_killzone_collision(kill_zone_collision([false; 4], [true, true]));
    assert_eq!(victim, None);
}

#[test]
fn death_timer_restarts_the_level_once() {
    assert_eq!(DEATH_DELAY_NANOS, 600_000_000);
    let mut timer = DeathTimer::default();
    assert_eq!(timer.0.duration_nanos(), 600_000_000);
    assert_eq!(timer.0.mode(), TimerMode::Once);
    assert_eq!(timer.0.elapsed_nanos(), 0);
    assert_eq!(tick_death_timer(&mut timer, 599_999_999), None);
    assert_eq!(tick_death_timer(&mut timer, 1), Some(GameState::Reloading));
    assert_eq!(tick_death_timer(&mut timer, 1), None);
    assert_eq!(tick_death_timer(&mut timer, 600_000_000), None);
}

// Pickups

fn coin_collision(coins: [bool; 2], players: [bool; 2]) -> CoinCollision {
    CoinCollision {
        collider1_is_coin: coins[0],
        collider2_is_coin: coins[1],
        body1_is_player: players[0],
        body2_is_player: players[1],
    }
}

#[test]
fn coin_is_collected_by_the_player_on_the_other_side() {
    assert_eq!(collect_coins(coin_collision([true, false], [false, true])), Some(Side::First));
    assert_eq!(collect_coins(coin_collision([false, true], [true, false])), Some(Side::Second));
    assert_eq!(collect_coins(coin_collision([true, false], [true, true])), Some(Side::First));
}

#[test]
fn coin_is_left_alone_by_anything_else() {
    assert_eq!(collect_coins(coin_collision([true, false], [true, false])), None);
    assert_eq!(collect_coins(coin_collision([false, true], [false, true])), None);
    assert_eq!(collect_coins(coin_collision([true, false], [false, false])), None);
    assert_eq!(collect_coins(coin_collision([true, true], [true, true])), None);
    assert_eq!(collect_coins(coin_collision([false, false], [true, true])), None);
}

// Enemies

#[test]
fn enemy_turns_around_at_a_wall() {
    assert_eq!(
        update_patrol_movement(Heading::Right, false),
        Patrol { heading: Heading::Right, flip_x: false }
    );
    assert_eq!(
        update_patrol_movement(Heading::Right, true),
        Patrol { heading: Heading::Left, flip_x: true }
    );
    assert_eq!(
        update_patrol_movement(Heading::Left, false),
        Patrol { heading: Heading::Left, flip_x: true }
    );
    assert_eq!(
        update_patrol_movement(Heading::Left, true),
        Patrol { heading: Heading::Right, flip_x: false }
    );
    assert_eq!(Heading::Left.turned(), Heading::Right);
}

// Animation

#[test]
fn animation_timers_follow_the_frame_rate() {
    let animation = SpriteAnimation::new(4, 7, 10);
    assert_eq!((animation.first, animation.last), (4, 7));
    assert_eq!(animation.timer.duration_nanos(), 100_000_000);
    assert_eq!(animation.timer.mode(), TimerMode::Repeating);
    let config = AnimationConfig::new(0, 3, 10, true);
    assert_eq!((config.first_sprite_index, config.last_sprite_index), (0, 3));
    assert_eq!((config.fps, config.looping), (10, true));
    assert_eq!(config.frame_timer.duration_nanos(), 100_000_000);
    assert_eq!(config.frame_timer.mode(), TimerMode::Repeating);
    let once = AnimationConfig::timer_from_fps(3, false);
    assert_eq!(once.duration_nanos(), 333_333_333);
    assert_eq!(once.mode(), TimerMode::Once);
    assert_eq!(once.elapsed_nanos(), 0);
    assert_eq!(AnimationConfig::timer_from_fps(255, true).duration_nanos(), 3_921_568);
    assert_eq!(AnimationConfig::timer_from_fps(1, true).duration_nanos(), 1_000_000_000);
    assert_eq!(AnimationState::default(), AnimationState::Idle);
}

#[test]
fn animation_moves_one_frame_when_the_timer_runs_out() {
    let mut animation = SpriteAnimation::new(4, 7, 10);
    assert_eq!(animate_sprites(&mut animation, 99_999_999, 4), 4);
    assert_eq!(animate_sprites(&mut animation, 1, 4), 5);
    assert_eq!(animate_sprites(&mut animation, 100_000_000, 5), 6);
    assert_eq!(animate_sprites(&mut animation, 350_000_000, 6), 7);
    assert_eq!(animation.timer.elapsed_nanos(), 50_000_000);
    assert_eq!(animate_sprites(&mut animation, 50_000_000, 7), 4);
    assert_eq!(animate_sprites(&mut animation, 50_000_000, 4), 4);
}

#[test]
fn animation_returns_to_its_range() {
    let mut animation = SpriteAnimation::new(4, 7, 10);
    assert_eq!(animate_sprites(&mut animation, 100_000_000, 9), 4);
    assert_eq!(animate_sprites(&mut animation, 100_000_000, 0), 1);
    assert_eq!(animate_sprites(&mut animation, 100_000_000, usize::MAX), 4);
}

// Spawn points

#[test]
fn spawn_points_go_by_their_names() {
    assert_eq!(spawn_point("PlayerSpawn"), Some(SpawnPoint::Player));
    assert_eq!(spawn_point("SlimeSpawn"), Some(SpawnPoint::Slime));
    assert_eq!(spawn_point("PlatformSpawn"), Some(SpawnPoint::Platform));
    assert_eq!(spawn_point("playerspawn"), None);
    assert_eq!(spawn_point("PlayerSpawn "), None);
    assert_eq!(spawn_point("Coin"), None);
    assert_eq!(spawn_point(""), None);
}

// State and score

#[test]
fn game_starts_in_play_without_coins() {
    assert_eq!(GameState::default(), GameState::Playing);
    assert_eq!(Score::default(), Score(0));
}

#[test]
fn score_counts_coins_and_restart_clears_it() {
    let mut score = Score::default();
    increment_score(&mut score, 1);
    increment_score(&mut score, 1);
    increment_score(&mut score, 3);
    assert_eq!(score, Score(5));
    increment_score(&mut score, u32::MAX - 5);
    assert_eq!(score, Score(u32::MAX));
    assert_eq!(restart_game(&mut score), GameState::Playing);
    assert_eq!(score, Score(0));
}

// Texts

#[test]
fn numbers_are_written_in_decimal() {
    assert_eq!(decimal_string(0), "0");
    assert_eq!(decimal_string(7), "7");
    assert_eq!(decimal_string(10), "10");
    assert_eq!(decimal_string(1_234_567_890), "1234567890");
    assert_eq!(decimal_string(u32::MAX), "4294967295");
    assert_eq!(decimal_string(100_200), format!("{}", 100_200));
}

#[test]
fn score_text_names_the_number_of_coins() {
    assert_eq!(update_score_text(Score(0)), "You collected 0 coins.");
    assert_eq!(update_score_text(Score(1)), "You collected 1 coins.");
    assert_eq!(update_score_text(Score(42)), "You collected 42 coins.");
}

#[test]
fn tips_are_named_after_their_text() {
    assert_eq!(tip_name("Press space to jump"), "Tip: Press space to jump");
    assert_eq!(tip_name(""), "Tip: ");
}
