//! Whole-frame behaviour of the world controller.

use iron_jump::game::{Game, Key};
use iron_jump::object::{GameObject, Platform};
use iron_jump::player::{Input, Player};

fn platform_of(g: &Game, i: usize) -> Platform {
    match g.game_objects[i] {
        GameObject::Platform(p) => p,
    }
}

#[test]
fn fresh_world_layout() {
    let g = Game::new();
    assert_eq!(g.player.x, 22400);
    assert_eq!(g.player.y, 14400);
    assert_eq!(g.player.move_x, 0);
    assert_eq!(g.player.move_y, 0);
    assert!(!g.player.jumping);
    assert_eq!(g.game_objects.len(), 3);
    let first = platform_of(&g, 0);
    assert_eq!((first.x, first.y), (9600, 17600));
    assert_eq!((first.width_segments, first.height_segments), (11, 5));
    let second = platform_of(&g, 1);
    assert_eq!((second.x, second.y), (60800, 17600));
    let third = platform_of(&g, 2);
    assert_eq!((third.x, third.y), (105600, 17600));
    assert_eq!(g.input_acceleration, Input { x: 0, y: 0 });
    assert_eq!((g.background_offset_x, g.background_offset_y), (-16000, -33600));
}

#[test]
fn resting_on_a_platform_is_a_fixed_point() {
    // The fresh world spawns the player standing exactly on the first
    // platform; ten idle frames leave everything in place.
    let mut g = Game::new();
    for _ in 0..10 {
        g.update();
        assert_eq!(g.player.move_y, 0);
        assert_eq!(g.player.move_x, 0);
        assert!(!g.player.jumping);
        assert_eq!(g.player.x, 22400);
        assert_eq!(g.player.y, 14400);
        let first = platform_of(&g, 0);
        assert_eq!((first.x, first.y), (9600, 17600));
        let second = platform_of(&g, 1);
        assert_eq!((second.x, second.y), (60800, 17600));
    }
}

fn bare_world(player: Player, platforms: Vec<Platform>) -> Game {
    let mut game_objects = Vec::new();
    for p in platforms {
        game_objects.push(GameObject::Platform(p));
    }
    Game {
        player,
        game_objects,
        input_acceleration: Input { x: 0, y: 0 },
        background_offset_x: 0,
        background_offset_y: 0,
    }
}

#[test]
fn running_into_a_wall_stops_and_pushes_back() {
    // A wall one unit right of the player; the player carries a rightward
    // speed of 558 after this frame's deceleration step.
    let mut player = Player::new(0, 0);
    player.move_x = 580;
    let wall = Platform { x: 3300, y: 0, width_segments: 1, height_segments: 1 };
    let mut g = bare_world(player, vec![wall]);
    g.update();
    // The world first scrolls left by 558 (the wall reaches 2742), the
    // overlap of 458 pushes it back to exact contact, and the speed drops
    // to zero.
    assert_eq!(g.player.move_x, 0);
    let wall_now = platform_of(&g, 0);
    assert_eq!(wall_now.x, 3200);
    // The vertical pass saw only a zero-width grazing contact: gravity's
    // shift of -22 stays applied.
    assert_eq!(wall_now.y, -22);
    assert_eq!(g.player.move_y, -22);
}

#[test]
fn landing_at_full_fall_speed_does_not_tunnel() {
    // The platform's top starts two units under the player's feet; one
    // frame at the fall clamp would carry the feet fifteen units down
    // through it.
    let mut player = Player::new(0, 0);
    player.move_y = -1500;
    player.jumping = true;
    let floor = Platform { x: -3200, y: 3400, width_segments: 4, height_segments: 1 };
    let mut g = bare_world(player, vec![floor]);
    g.update();
    // Resolution leaves the platform top in exact contact with the feet.
    let floor_now = platform_of(&g, 0);
    assert_eq!(floor_now.y, 3200);
    assert_eq!(g.player.move_y, 0);
    assert!(!g.player.jumping);
}

#[test]
fn ceiling_bump_zeroes_the_rise_and_keeps_the_jump() {
    let mut player = Player::new(0, 0);
    player.move_y = 700;
    player.jumping = true;
    let ceiling = Platform { x: -3200, y: -3300, width_segments: 4, height_segments: 1 };
    let mut g = bare_world(player, vec![ceiling]);
    g.update();
    let ceiling_now = platform_of(&g, 0);
    // The rise of 678 ran the ceiling's underside 578 past the player's
    // head; resolution pushes it back to exact contact and zeroes the
    // rise, but a head bump does not end the jump.
    assert_eq!(ceiling_now.y, -3200);
    assert_eq!(g.player.move_y, 0);
    assert!(g.player.jumping);
}

#[test]
fn the_last_overlapping_platform_wins() {
    // Two walls overlap the player from the same side; the later one in
    // the list decides the push-back.
    let mut player = Player::new(0, 0);
    player.move_x = 580;
    let far = Platform { x: 3400, y: 0, width_segments: 1, height_segments: 1 };
    let near = Platform { x: 3300, y: 0, width_segments: 1, height_segments: 1 };
    let mut g = bare_world(player, vec![far, near]);
    g.update();
    // The scroll of 558 puts the walls at 2842 and 2742; had the first one
    // won, the push-back would be its overlap of 358, but the second one's
    // 458 decides.
    assert_eq!(platform_of(&g, 0).x, 2842 + 458);
    assert_eq!(platform_of(&g, 1).x, 2742 + 458);
    assert_eq!(g.player.move_x, 0);
}

#[test]
fn key_events_drive_the_input_vector() {
    let mut g = Game::new();
    g.key_down_event(Key::Left);
    assert_eq!(g.input_acceleration, Input { x: -1, y: 0 });
    g.key_down_event(Key::Right);
    assert_eq!(g.input_acceleration, Input { x: 1, y: 0 });
    g.key_down_event(Key::Up);
    assert_eq!(g.input_acceleration, Input { x: 1, y: 1 });
    g.key_down_event(Key::Other);
    assert_eq!(g.input_acceleration, Input { x: 1, y: 1 });
    g.key_up_event(Key::Left);
    assert_eq!(g.input_acceleration, Input { x: 0, y: 1 });
    g.key_up_event(Key::Up);
    assert_eq!(g.input_acceleration, Input { x: 0, y: 0 });
    g.key_up_event(Key::Other);
    assert_eq!(g.input_acceleration, Input { x: 0, y: 0 });
}

#[test]
fn held_jump_key_lifts_off_and_lands_again() {
    let mut g = Game::new();
    g.key_down_event(Key::Up);
    g.update();
    // Liftoff: the jump speed minus one gravity step, and the world slid
    // down under the player.
    assert_eq!(g.player.move_y, 678);
    assert!(g.player.jumping);
    assert_eq!(platform_of(&g, 0).y, 17600 + 678);
    g.key_up_event(Key::Up);
    // The arc comes back down and the player lands on the platform again.
    for _ in 0..100 {
        g.update();
    }
    assert_eq!(g.player.move_y, 0);
    assert!(!g.player.jumping);
    assert_eq!(platform_of(&g, 0).y, 17600);
}

#[test]
fn scrolling_moves_the_world_and_a_quarter_of_the_background() {
    let mut g = Game::new();
    g.move_world(400, -80);
    let first = platform_of(&g, 0);
    assert_eq!((first.x, first.y), (10000, 17520));
    // The offset accumulates the raw shift in quarter-hundredths: reading
    // it as hundredths divides by four.
    assert_eq!(g.background_offset_x, -16000 + 400);
    assert_eq!(g.background_offset_y, -33600 - 80);
}

#[test]
fn tile_destinations_step_by_whole_tiles() {
    assert_eq!(iron_jump::game::tile_origin(10, 20, 0, 0), (10, 20));
    assert_eq!(iron_jump::game::tile_origin(10, 20, 2, 3), (10 + 6400, 20 + 9600));
    assert_eq!(iron_jump::game::tile_origin(-4000, -5200, 17, 11), (-4000 + 54400, -5200 + 35200));
}

#[test]
fn background_origin_wraps_by_tiles() {
    let g = Game::new();
    // Offsets of -16000 and -33600 quarter-hundredths are -4000 and -8400
    // hundredths; wrapped by the tile of 3200 and pushed one tile off
    // screen they give -800 - 3200 and -2000 - 3200.
    assert_eq!(g.background_tile_origin(), (-4000, -5200));
    let mut g2 = Game::new();
    g2.background_offset_x = 0;
    g2.background_offset_y = 13000;
    // 13000 quarter-hundredths are 3250 hundredths: one full tile and 50.
    assert_eq!(g2.background_tile_origin(), (-3200, 50 - 3200));
}
