//! The world controller: the player, the platform list, the held input
//! vector and the parallax background offset, driven once per frame.
//!
//! Scrolling follows the "move the world, not the hero" rule: the player's
//! screen position is a constant, and all movement is applied to the
//! platforms and the background offset.  A frame runs in a fixed,
//! load-bearing order: animate objects, turn input into player velocity,
//! shift the world horizontally, resolve horizontal collisions, shift the
//! world vertically, resolve vertical collisions, then tilt the player
//! sprite against its final speed.

use vstd::prelude::*;
use crate::geometry::{
    RectV, rect_intersection, rect_is_empty_with_tolerance, spec_intersection,
    spec_is_empty_with_tolerance, spec_raw_intersection,
};
use crate::object::{GameObject, ObjectV, Platform, PlatformV};
use crate::player::{Input, Player, PlayerV, player_step, rotate_step};
use crate::units::{
    COLLISION_TOLERANCE, COORD_LIMIT, DECELERATION, MAX_FALL_SPEED, RECT_TOLERANCE, SEGMENTS_LIMIT,
    TILE_SIZE, UP_SPEED, in_coord_range,
    spec_shift, trunc_div, trunc_rem,
};

verus! {

/// A key the frame driver can report; anything but the three recognized
/// keys is `Other` and is ignored.
#[derive(Clone, Copy, PartialEq, Eq, Structural, Debug)]
pub enum Key {
    Left,
    Right,
    Up,
    Other,
}

/// The mathematical value of the world.
#[verifier::ext_equal]
pub ghost struct GameV {
    pub player: PlayerV,
    pub objects: Seq<ObjectV>,
    pub input_x: int,
    pub input_y: int,
    pub background_x: int,
    pub background_y: int,
}

impl GameV {
    pub open spec fn wf(self) -> bool {
        &&& self.player.wf()
        &&& forall|i: int| 0 <= i < self.objects.len() ==> (#[trigger] self.objects[i]).wf()
        &&& -1 <= self.input_x <= 1
        &&& -1 <= self.input_y <= 1
        &&& in_coord_range(self.background_x)
        &&& in_coord_range(self.background_y)
    }
}

/// The world moved by `(dx, dy)`: every game object shifts, and the
/// background offset accumulates the same displacement.  The offset counts
/// quarter-hundredths of a unit, so adding the raw shift to it advances the
/// background by exactly a quarter of the shift — the parallax factor.
pub open spec fn shift_world(g: GameV, dx: int, dy: int) -> GameV {
    GameV {
        objects: g.objects.map_values(|o: ObjectV| o.shifted(dx, dy)),
        background_x: spec_shift(g.background_x, dx),
        background_y: spec_shift(g.background_y, dy),
        ..g
    }
}

/// The running outcome of the horizontal collision pass.
pub ghost struct LrState {
    pub colliding: bool,
    pub offset: int,
}

/// One platform's contribution to the horizontal pass.  A genuine overlap
/// pushes the world right by the overlap width when the platform's left
/// edge lies right of the player's, left by it when the platform's right
/// edge lies left of the player's; the last overlapping platform wins.
pub open spec fn lr_step(o: ObjectV, pr: RectV, s: LrState) -> LrState {
    if !o.is_platform() {
        s
    } else {
        let inter = spec_intersection(o.rect(), pr);
        if spec_is_empty_with_tolerance(inter) {
            s
        } else if o.rect().left() > pr.left() {
            LrState { colliding: true, offset: inter.w }
        } else if o.rect().right() < pr.right() {
            LrState { colliding: true, offset: -inter.w }
        } else {
            s
        }
    }
}

/// The horizontal pass over the whole object list, in list order.
pub open spec fn lr_scan(objs: Seq<ObjectV>, pr: RectV) -> LrState
    decreases objs.len(),
{
    if objs.len() == 0 {
        LrState { colliding: false, offset: 0 }
    } else {
        lr_step(objs.last(), pr, lr_scan(objs.drop_last(), pr))
    }
}

/// The world after horizontal collision resolution: on a collision the
/// winning offset shifts the world and the player's horizontal speed drops
/// to zero; otherwise nothing changes.
pub open spec fn lr_resolve(g: GameV) -> GameV {
    let s = lr_scan(g.objects, g.player.rect());
    if s.colliding {
        let shifted = shift_world(g, s.offset, 0);
        GameV { player: PlayerV { move_x: 0, ..shifted.player }, ..shifted }
    } else {
        g
    }
}

/// The running outcome of the vertical collision pass; the vertical speed
/// and the jump flag evolve as platforms are examined.
pub ghost struct UdState {
    pub colliding: bool,
    pub offset: int,
    pub move_y: int,
    pub jumping: bool,
}

/// One platform's contribution to the vertical pass, over a genuine
/// overlap.  A platform whose bottom lies above the player's bottom zeroes
/// a rising speed and pushes the world up by the overlap height.  Otherwise
/// a predictive check with the collision tolerance looks one frame ahead:
/// while falling it zeroes the speed, clears the jump flag and pushes the
/// world down by the overlap height — a landing; while not falling it only
/// clears the jump flag and pushes — resting contact.
pub open spec fn ud_step(o: ObjectV, pr: RectV, s: UdState) -> UdState {
    if !o.is_platform() {
        s
    } else {
        let inter = spec_intersection(o.rect(), pr);
        if spec_is_empty_with_tolerance(inter) {
            s
        } else if o.rect().bottom() < pr.bottom() {
            UdState {
                colliding: true,
                offset: -inter.h,
                move_y: if s.move_y > 0 {
                    0
                } else {
                    s.move_y
                },
                jumping: s.jumping,
            }
        } else if s.move_y < 0 {
            if o.rect().top() > pr.bottom() - COLLISION_TOLERANCE as int + s.move_y {
                UdState { colliding: true, offset: inter.h, move_y: 0, jumping: false }
            } else {
                s
            }
        } else {
            if o.rect().top() > pr.bottom() - COLLISION_TOLERANCE as int + s.move_y {
                UdState { colliding: true, offset: inter.h, move_y: s.move_y, jumping: false }
            } else {
                s
            }
        }
    }
}

/// The vertical pass over the whole object list, in list order.
pub open spec fn ud_scan(objs: Seq<ObjectV>, pr: RectV, vy: int, jumping: bool) -> UdState
    decreases objs.len(),
{
    if objs.len() == 0 {
        UdState { colliding: false, offset: 0, move_y: vy, jumping }
    } else {
        ud_step(objs.last(), pr, ud_scan(objs.drop_last(), pr, vy, jumping))
    }
}

/// The world after vertical collision resolution: the player takes the
/// vertical speed and jump flag the pass computed, and on a collision the
/// winning offset shifts the world.
pub open spec fn ud_resolve(g: GameV) -> GameV {
    let s = ud_scan(g.objects, g.player.rect(), g.player.move_y, g.player.jumping);
    let adjusted = GameV {
        player: PlayerV { move_y: s.move_y, jumping: s.jumping, ..g.player },
        ..g
    };
    if s.colliding {
        shift_world(adjusted, 0, s.offset)
    } else {
        adjusted
    }
}

/// One whole frame: the player's velocity from input, the horizontal world
/// shift of minus the horizontal speed, horizontal resolution, the vertical
/// world shift of the vertical speed, vertical resolution, and the visual
/// tilt against the final speed.
pub open spec fn game_step(g: GameV) -> GameV {
    let stepped = GameV { player: player_step(g.player, g.input_x, g.input_y), ..g };
    let scrolled = shift_world(stepped, -stepped.player.move_x, 0);
    let resolved_x = lr_resolve(scrolled);
    let dropped = shift_world(resolved_x, 0, resolved_x.player.move_y);
    let resolved_y = ud_resolve(dropped);
    GameV { player: rotate_step(resolved_y.player), ..resolved_y }
}

/// The world after a key went down: Left and Right set the horizontal
/// input, Up sets the jump input, anything else is ignored.
pub open spec fn key_down_step(g: GameV, key: Key) -> GameV {
    match key {
        Key::Left => GameV { input_x: -1, ..g },
        Key::Right => GameV { input_x: 1, ..g },
        Key::Up => GameV { input_y: 1, ..g },
        Key::Other => g,
    }
}

/// The world after a key went up: releasing Left or Right clears the
/// horizontal input, releasing Up clears the jump input.
pub open spec fn key_up_step(g: GameV, key: Key) -> GameV {
    match key {
        Key::Left => GameV { input_x: 0, ..g },
        Key::Right => GameV { input_x: 0, ..g },
        Key::Up => GameV { input_y: 0, ..g },
        Key::Other => g,
    }
}

/// The on-screen origin coordinate of the background tiling for an
/// accumulated parallax offset: the offset in hundredths (a quarter of the
/// accumulated world shift), wrapped modulo the tile size with the sign of
/// the offset, then pushed one tile off screen so tiles pre-fill the edges.
pub open spec fn spec_background_origin(b: int) -> int {
    trunc_rem(trunc_div(b, 4), TILE_SIZE as int) - TILE_SIZE as int
}

/// The world as a fresh session starts: three platforms in a row at world
/// depth 512, the player spawned standing on the first one at world
/// position (384, 480), and the whole world already shifted so the player
/// sits at the screen centre, (224, 144).
pub open spec fn initial_game() -> GameV {
    GameV {
        player: PlayerV {
            x: 22400,
            y: 14400,
            move_x: 0,
            move_y: 0,
            jumping: false,
            alpha: 100,
            rotation: 0,
            speed_up_counter: 0,
        },
        objects: seq![
            ObjectV::Platform(PlatformV { x: 9600, y: 17600, width_segments: 11, height_segments: 5 }),
            ObjectV::Platform(
                PlatformV { x: 60800, y: 17600, width_segments: 10, height_segments: 5 },
            ),
            ObjectV::Platform(
                PlatformV { x: 105600, y: 17600, width_segments: 9, height_segments: 5 },
            ),
        ],
        input_x: 0,
        input_y: 0,
        background_x: -16000,
        background_y: -33600,
    }
}

/// The world: the player, the ordered game-object list, the held input and
/// the accumulated parallax offset (in quarter-hundredths of a unit).
pub struct Game {
    pub player: Player,
    pub game_objects: Vec<GameObject>,
    pub input_acceleration: Input,
    pub background_offset_x: i64,
    pub background_offset_y: i64,
}

impl View for Game {
    type V = GameV;

    open spec fn view(&self) -> GameV {
        GameV {
            player: self.player@,
            objects: Seq::new(self.game_objects@.len(), |i: int| self.game_objects@[i]@),
            input_x: self.input_acceleration.x as int,
            input_y: self.input_acceleration.y as int,
            background_x: self.background_offset_x as int,
            background_y: self.background_offset_y as int,
        }
    }
}

impl Game {
    /// Builds the starting world and scrolls it so the player, spawned
    /// standing on the first platform, sits at the screen centre.
    pub fn new() -> (g: Game)
        ensures
            g@ == initial_game(),
            g@.wf(),
    {
        let mut game_objects: Vec<GameObject> = Vec::new();
        game_objects.push(
            GameObject::Platform(
                Platform { x: 25600, y: 51200, width_segments: 11, height_segments: 5 },
            ),
        );
        game_objects.push(
            GameObject::Platform(
                Platform { x: 76800, y: 51200, width_segments: 10, height_segments: 5 },
            ),
        );
        game_objects.push(
            GameObject::Platform(
                Platform { x: 121600, y: 51200, width_segments: 9, height_segments: 5 },
            ),
        );

        // The spawn point on the first platform, and the screen centre for
        // a tile-sized sprite: half the screen minus half a tile.
        let player_x: i64 = 38400;
        let player_y: i64 = 48000;
        let center_x: i64 = 22400;
        let center_y: i64 = 14400;

        let player = Player::new(center_x, center_y);

        let mut game = Game {
            player,
            game_objects,
            input_acceleration: Input::zero(),
            background_offset_x: 0,
            background_offset_y: 0,
        };

        game.move_world(center_x - player_x, center_y - player_y);

        proof {
            assert(game@ =~= initial_game());
        }
        game
    }

    /// Shifts every game object and the background offset by `(x, y)`; the
    /// player's screen position is untouched.
    #[verifier::loop_isolation(false)]
    pub fn move_world(&mut self, x: i64, y: i64)
        requires
            old(self)@.wf(),
            in_coord_range(x as int),
            in_coord_range(y as int),
        ensures
            final(self)@ == shift_world(old(self)@, x as int, y as int),
            final(self)@.wf(),
    {
        let ghost orig = self@.objects;
        let mut i: usize = 0;
        while i < self.game_objects.len()
            invariant
                i <= self.game_objects.len(),
                self.game_objects.len() == orig.len(),
                self.player == old(self).player,
                self.input_acceleration == old(self).input_acceleration,
                self.background_offset_x == old(self).background_offset_x,
                self.background_offset_y == old(self).background_offset_y,
                forall|j: int|
                    0 <= j < i ==> #[trigger] self.game_objects@[j]@ == orig[j].shifted(
                        x as int,
                        y as int,
                    ),
                forall|j: int| i <= j < orig.len() ==> #[trigger] self.game_objects@[j]@ == orig[j],
            decreases orig.len() - i,
        {
            proof {
                assert(orig[i as int].wf());
            }
            let mut obj = self.game_objects[i];
            obj.move_world(x, y);
            self.game_objects.set(i, obj);
            i = i + 1;
        }
        self.background_offset_x = crate::units::shift_saturating(self.background_offset_x, x);
        self.background_offset_y = crate::units::shift_saturating(self.background_offset_y, y);
        proof {
            assert(self@ =~= shift_world(old(self)@, x as int, y as int));
        }
    }

    /// Resolves horizontal collisions: over every platform genuinely
    /// overlapping the player, the last one wins, the world shifts by its
    /// overlap width away from the side the player came from, and the
    /// player's horizontal speed drops to zero.
    #[verifier::loop_isolation(false)]
    pub fn collision_left_right(&mut self)
        requires
            old(self)@.wf(),
        ensures
            final(self)@ == lr_resolve(old(self)@),
            final(self)@.wf(),
    {
        let mut is_colliding = false;
        let mut offset_x: i64 = 0;
        let player_rect = self.player.rect();
        let ghost objs = self@.objects;
        let ghost pr = self.player@.rect();

        let mut i: usize = 0;
        while i < self.game_objects.len()
            invariant
                i <= self.game_objects.len(),
                -TILE_SIZE <= offset_x <= TILE_SIZE,
                (LrState { colliding: is_colliding, offset: offset_x as int }) == lr_scan(
                    objs.take(i as int),
                    pr,
                ),
            decreases self.game_objects.len() - i,
        {
            proof {
                assert(objs[i as int].wf());
                assert(objs.take(i as int + 1).drop_last() =~= objs.take(i as int));
            }
            let obj = self.game_objects[i];
            if obj.is_platform() {
                let obj_rect = obj.rect();
                let intersection = rect_intersection(obj_rect, player_rect);
                if !rect_is_empty_with_tolerance(intersection) {
                    if obj_rect.x > player_rect.x {
                        offset_x = intersection.w;
                        is_colliding = true;
                    } else if obj_rect.x + obj_rect.w < player_rect.x + player_rect.w {
                        offset_x = -intersection.w;
                        is_colliding = true;
                    }
                }
            }
            i = i + 1;
        }
        proof {
            assert(objs.take(self.game_objects.len() as int) =~= objs);
        }

        if is_colliding {
            self.move_world(offset_x, 0);
            self.player.move_x = 0;
        }
        proof {
            assert(self@ =~= lr_resolve(old(self)@));
        }
    }

    /// Resolves vertical collisions: over every platform genuinely
    /// overlapping the player, the last one wins.  Landing from a fall
    /// zeroes the vertical speed and clears the jump flag; resting contact
    /// clears the flag only; a platform whose underside is above the
    /// player's feet zeroes a rising speed instead.
    #[verifier::loop_isolation(false)]
    pub fn collision_up_down(&mut self)
        requires
            old(self)@.wf(),
        ensures
            final(self)@ == ud_resolve(old(self)@),
            final(self)@.wf(),
    {
        let mut is_colliding = false;
        let mut offset_y: i64 = 0;
        let mut vy = self.player.move_y;
        let mut jumping = self.player.jumping;
        let player_rect = self.player.rect();
        let ghost objs = self@.objects;
        let ghost pr = self.player@.rect();
        let ghost vy0 = self.player@.move_y;
        let ghost j0 = self.player@.jumping;

        let mut i: usize = 0;
        while i < self.game_objects.len()
            invariant
                i <= self.game_objects.len(),
                -TILE_SIZE <= offset_y <= TILE_SIZE,
                MAX_FALL_SPEED <= vy <= UP_SPEED,
                (UdState {
                    colliding: is_colliding,
                    offset: offset_y as int,
                    move_y: vy as int,
                    jumping,
                }) == ud_scan(objs.take(i as int), pr, vy0, j0),
            decreases self.game_objects.len() - i,
        {
            proof {
                assert(objs[i as int].wf());
                assert(objs.take(i as int + 1).drop_last() =~= objs.take(i as int));
            }
            let obj = self.game_objects[i];
            if obj.is_platform() {
                let obj_rect = obj.rect();
                let intersection = rect_intersection(obj_rect, player_rect);
                if !rect_is_empty_with_tolerance(intersection) {
                    if obj_rect.y + obj_rect.h < player_rect.y + player_rect.h {
                        if vy > 0 {
                            vy = 0;
                        }
                        offset_y = -intersection.h;
                        is_colliding = true;
                    } else if vy < 0 {
                        if obj_rect.y > player_rect.y + player_rect.h - COLLISION_TOLERANCE + vy {
                            vy = 0;
                            jumping = false;
                            offset_y = intersection.h;
                            is_colliding = true;
                        }
                    } else {
                        if obj_rect.y > player_rect.y + player_rect.h - COLLISION_TOLERANCE + vy {
                            jumping = false;
                            offset_y = intersection.h;
                            is_colliding = true;
                        }
                    }
                }
            }
            i = i + 1;
        }
        proof {
            assert(objs.take(self.game_objects.len() as int) =~= objs);
        }

        self.player.move_y = vy;
        self.player.jumping = jumping;
        if is_colliding {
            self.move_world(0, offset_y);
        }
        proof {
            assert(self@ =~= ud_resolve(old(self)@));
        }
    }

    /// Runs one whole frame in the fixed order: animate objects, apply
    /// input to the player, scroll horizontally, resolve horizontal
    /// collisions, drop vertically, resolve vertical collisions, tilt the
    /// sprite.
    #[verifier::loop_isolation(false)]
    pub fn update(&mut self)
        requires
            old(self)@.wf(),
        ensures
            final(self)@ == game_step(old(self)@),
            final(self)@.wf(),
    {
        let ghost g0 = self@;
        let mut i: usize = 0;
        while i < self.game_objects.len()
            invariant
                i <= self.game_objects.len(),
                self.player == old(self).player,
                self.input_acceleration == old(self).input_acceleration,
                self.background_offset_x == old(self).background_offset_x,
                self.background_offset_y == old(self).background_offset_y,
                self.game_objects@ == old(self).game_objects@,
            decreases self.game_objects.len() - i,
        {
            let mut obj = self.game_objects[i];
            obj.update();
            self.game_objects.set(i, obj);
            proof {
                assert(self.game_objects@ =~= old(self).game_objects@);
            }
            i = i + 1;
        }

        let input = self.input_acceleration;
        self.player.update_from_input(input);
        proof {
            assert(self@ =~= (GameV {
                player: player_step(g0.player, g0.input_x, g0.input_y),
                ..g0
            }));
        }
        let ghost g1 = self@;

        let mx = self.player.move_x;
        self.move_world(-mx, 0);
        let ghost g2 = self@;

        self.collision_left_right();
        let ghost g3 = self@;

        let my = self.player.move_y;
        self.move_world(0, my);
        let ghost g4 = self@;

        self.collision_up_down();
        let ghost g5 = self@;

        self.player.update_after_collision();
        proof {
            assert(g2 == shift_world(g1, -g1.player.move_x, 0));
            assert(g3 == lr_resolve(g2));
            assert(g4 == shift_world(g3, 0, g3.player.move_y));
            assert(g5 == ud_resolve(g4));
            assert(self@ =~= game_step(g0));
        }
    }

    /// Records a key going down.
    pub fn key_down_event(&mut self, keycode: Key)
        requires
            old(self)@.wf(),
        ensures
            final(self)@ == key_down_step(old(self)@, keycode),
            final(self)@.wf(),
    {
        if matches!(keycode, Key::Left) {
            self.input_acceleration.x = -1;
        } else if matches!(keycode, Key::Right) {
            self.input_acceleration.x = 1;
        } else if matches!(keycode, Key::Up) {
            self.input_acceleration.y = 1;
        }
        proof {
            assert(self@ =~= key_down_step(old(self)@, keycode));
        }
    }

    /// Records a key going up.
    pub fn key_up_event(&mut self, keycode: Key)
        requires
            old(self)@.wf(),
        ensures
            final(self)@ == key_up_step(old(self)@, keycode),
            final(self)@.wf(),
    {
        if matches!(keycode, Key::Left) {
            self.input_acceleration.x = 0;
        } else if matches!(keycode, Key::Right) {
            self.input_acceleration.x = 0;
        } else if matches!(keycode, Key::Up) {
            self.input_acceleration.y = 0;
        }
        proof {
            assert(self@ =~= key_up_step(old(self)@, keycode));
        }
    }

    /// The on-screen origin of the background tiling: a quarter of the
    /// accumulated world shift, wrapped modulo the tile size and pushed one
    /// tile off screen.  `BACKGROUND_COLUMNS` by `BACKGROUND_ROWS` tiles
    /// from this origin cover the screen at every scroll position.
    pub fn background_tile_origin(&self) -> (r: (i64, i64))
        requires
            self@.wf(),
        ensures
            r.0 as int == spec_background_origin(self@.background_x),
            r.1 as int == spec_background_origin(self@.background_y),
    {
        (origin_coord(self.background_offset_x), origin_coord(self.background_offset_y))
    }
}

/// The destination of tile `(ix, iy)` of a tile grid anchored at `(x, y)`:
/// the anchor plus the tile indices times the tile size.  The rendering
/// shell draws platform and background tiles at these points.
pub fn tile_origin(x: i64, y: i64, ix: i64, iy: i64) -> (r: (i64, i64))
    requires
        in_coord_range(x as int),
        in_coord_range(y as int),
        0 <= ix <= SEGMENTS_LIMIT,
        0 <= iy <= SEGMENTS_LIMIT,
    ensures
        r.0 as int == x as int + ix as int * TILE_SIZE as int,
        r.1 as int == y as int + iy as int * TILE_SIZE as int,
{
    (x + ix * TILE_SIZE, y + iy * TILE_SIZE)
}

/// One coordinate of the background tiling origin.
fn origin_coord(b: i64) -> (r: i64)
    requires
        in_coord_range(b as int),
    ensures
        r as int == spec_background_origin(b as int),
{
    if b >= 0 {
        let q = (b as u64) / 4;
        let m = (q % (TILE_SIZE as u64)) as i64;
        m - TILE_SIZE
    } else {
        let q = ((-b) as u64) / 4;
        let m = (q % (TILE_SIZE as u64)) as i64;
        -m - TILE_SIZE
    }
}

/// Law: rest on a platform is stable.  In a world of one platform whose
/// top face carries the player — feet in exact contact, a genuine
/// horizontal overlap, both speeds zero — an idle frame leaves everything
/// in place: gravity's pull within the frame is undone exactly by the
/// landing resolution, the jump flag ends clear, and the platform, the
/// background and the player's pose come back unchanged.  (Only the
/// cosmetic animation phase and a running boost counter advance.)  The
/// margin premises keep the frame's internal shifts away from the
/// coordinate saturation bound.
pub proof fn lemma_rest_is_stable(g: GameV)
    requires
        g.wf(),
        g.input_x == 0,
        g.input_y == 0,
        g.player.move_x == 0,
        g.player.move_y == 0,
        g.objects.len() == 1,
        g.objects[0].rect().top() == g.player.rect().bottom(),
        spec_raw_intersection(g.objects[0].rect(), g.player.rect()).w >= RECT_TOLERANCE as int,
        g.objects[0].rect().top() - DECELERATION as int >= -(COORD_LIMIT as int),
        g.background_y - DECELERATION as int >= -(COORD_LIMIT as int),
    ensures
        game_step(g).player.x == g.player.x,
        game_step(g).player.y == g.player.y,
        game_step(g).player.move_x == 0,
        game_step(g).player.move_y == 0,
        !game_step(g).player.jumping,
        game_step(g).player.rotation == g.player.rotation,
        game_step(g).objects == g.objects,
        game_step(g).background_x == g.background_x,
        game_step(g).background_y == g.background_y,
{
    let p1 = player_step(g.player, 0, 0);
    assert(p1.move_x == 0);
    assert(p1.move_y == -(DECELERATION as int));
    let stepped = GameV { player: p1, ..g };
    let scrolled = shift_world(stepped, 0, 0);
    assert(scrolled.objects =~= g.objects) by {
        match g.objects[0] {
            ObjectV::Platform(q) => {
                assert(scrolled.objects[0] == g.objects[0].shifted(0, 0));
                assert(q.shifted(0, 0) == q);
            },
        }
    }
    assert(scrolled =~= (GameV { player: p1, ..g }));

    let pr = g.player.rect();
    assert(p1.rect() == pr);
    let empty_tail = scrolled.objects.drop_last();
    assert(empty_tail =~= Seq::<ObjectV>::empty());
    assert(lr_scan(empty_tail, pr) == (LrState { colliding: false, offset: 0 }));
    // Exact contact: the raw overlap has height zero, under the tolerance,
    // so the horizontal pass sees nothing.
    assert(spec_raw_intersection(g.objects[0].rect(), pr).h == 0);
    assert(!lr_scan(scrolled.objects, pr).colliding);
    let resolved_x = lr_resolve(scrolled);
    assert(resolved_x == scrolled);

    let dropped = shift_world(resolved_x, 0, p1.move_y);
    match g.objects[0] {
        ObjectV::Platform(q) => {
            let q_down = q.shifted(0, -(DECELERATION as int));
            assert(dropped.objects[0] == ObjectV::Platform(q_down));
            assert(q_down.y == q.y - DECELERATION as int);
            // The drop opens an overlap of exactly one gravity step under
            // the player's feet; the platform's underside stays below.
            let inter = spec_intersection(ObjectV::Platform(q_down).rect(), pr);
            assert(inter.h == DECELERATION as int);
            let tail = dropped.objects.drop_last();
            assert(tail =~= Seq::<ObjectV>::empty());
            assert(ud_scan(tail, pr, p1.move_y, p1.jumping) == (UdState {
                colliding: false,
                offset: 0,
                move_y: p1.move_y,
                jumping: p1.jumping,
            }));
            let s = ud_scan(dropped.objects, pr, p1.move_y, p1.jumping);
            assert(s == (UdState {
                colliding: true,
                offset: DECELERATION as int,
                move_y: 0,
                jumping: false,
            }));
            let resolved_y = ud_resolve(dropped);
            assert(resolved_y.objects[0] == ObjectV::Platform(
                q_down.shifted(0, DECELERATION as int),
            ));
            assert(q_down.shifted(0, DECELERATION as int) == q);
            assert(resolved_y.objects =~= g.objects);
            assert(resolved_y.background_y == g.background_y);
            assert(resolved_y.player.move_x == 0);
            assert(rotate_step(resolved_y.player).rotation == resolved_y.player.rotation);
        },
    }
}

/// Law: a fall onto a platform's top face never tunnels.  `platform` is
/// the platform as this frame's vertical drop left it and `p` the falling
/// player (the drop leaves the player untouched).  If the player genuinely
/// overlaps the platform, had not sunk past the collision tolerance into
/// its top face before the drop, and meets its top face rather than its
/// underside, then vertical resolution fires: it zeroes the fall, clears
/// the jump flag, and its push leaves the platform's top in exact contact
/// with the player's feet — no remaining penetration at any fall speed
/// down to the clamp.
pub proof fn lemma_landing_never_tunnels(platform: PlatformV, p: PlayerV)
    requires
        platform.wf(),
        p.wf(),
        in_coord_range(p.rect().bottom()),
        p.move_y < 0,
        !spec_is_empty_with_tolerance(spec_intersection(platform.rect(), p.rect())),
        p.rect().bottom() + p.move_y < platform.rect().top() + COLLISION_TOLERANCE as int,
        platform.rect().bottom() >= p.rect().bottom(),
    ensures
        ud_scan(seq![ObjectV::Platform(platform)], p.rect(), p.move_y, p.jumping).colliding,
        ud_scan(seq![ObjectV::Platform(platform)], p.rect(), p.move_y, p.jumping).move_y == 0,
        !ud_scan(seq![ObjectV::Platform(platform)], p.rect(), p.move_y, p.jumping).jumping,
        platform.shifted(
            0,
            ud_scan(seq![ObjectV::Platform(platform)], p.rect(), p.move_y, p.jumping).offset,
        ).rect().top() == p.rect().bottom(),
        spec_is_empty_with_tolerance(
            spec_raw_intersection(
                platform.shifted(
                    0,
                    ud_scan(
                        seq![ObjectV::Platform(platform)],
                        p.rect(),
                        p.move_y,
                        p.jumping,
                    ).offset,
                ).rect(),
                p.rect(),
            ),
        ),
{
    let objs = seq![ObjectV::Platform(platform)];
    assert(objs.drop_last() =~= Seq::<ObjectV>::empty());
    assert(ud_scan(objs.drop_last(), p.rect(), p.move_y, p.jumping) == (UdState {
        colliding: false,
        offset: 0,
        move_y: p.move_y,
        jumping: p.jumping,
    }));
    assert(objs.last() == ObjectV::Platform(platform));
    let s = ud_scan(objs, p.rect(), p.move_y, p.jumping);
    assert(s == ud_step(
        ObjectV::Platform(platform),
        p.rect(),
        UdState { colliding: false, offset: 0, move_y: p.move_y, jumping: p.jumping },
    ));
}

} // verus!
