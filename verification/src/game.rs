//! The per-frame game logic: contact between player and planet, contact
//! between player and obstacles, and the world state machine that strings the
//! per-frame systems together in the order the game runs them.

use vstd::prelude::*;

verus! {

use crate::{
    AppState,
    COORD_LIMIT,
    FRAME_LIMIT_MS,
    GameManager,
    LoadingState,
    PlanetSpawnEvent,
    Point2,
    in_world,
};
use crate::geom::{contact_circles, resolve_to_surface, resolve_x, resolve_y, separation};
use crate::obstacle::{OBSTACLE_RADIUS, Obstacle, obstacle_pos_x, obstacle_pos_y};
use crate::planet::Planet;
use crate::player::{PLAYER_RADIUS, Player};

/// Distance, in milli-pixels, within which the player-planet contact query
/// reports a contact and snaps the player onto the surface.
pub const CONTACT_MARGIN: i64 = 1_000;

/// How far, in milli-pixels, a planet's center must stay from the world's
/// edge so that everything placed around it stays in the world.
pub const PLANET_POS_MARGIN: i64 = 2_000_000;

/// Whether a planet center keeps the margin to the world's edge.
pub open spec fn planet_pos_ok(p: Point2) -> bool {
    &&& -COORD_LIMIT + PLANET_POS_MARGIN <= p.x <= COORD_LIMIT - PLANET_POS_MARGIN
    &&& -COORD_LIMIT + PLANET_POS_MARGIN <= p.y <= COORD_LIMIT - PLANET_POS_MARGIN
}

/// Whether the player at `player_pos` is in contact with the planet at
/// `planet_pos` of radius `planet_radius`, up to the contact margin.
pub open spec fn touches_planet(player_pos: Point2, planet_pos: Point2, planet_radius: int) -> bool {
    separation(player_pos, PLAYER_RADIUS as int, planet_pos, planet_radius) <= CONTACT_MARGIN
}

/// Resolves the player against the planet's surface. On contact (within the
/// contact margin) the player is snapped onto the surface along the line of
/// centers, grounded, and the planet is made live; otherwise the player is
/// left where it was and marked airborne. Returns the player's position after
/// resolution.
pub fn check_player_planet_collisions(
    player: &mut Player,
    player_pos: Point2,
    planet: &mut Planet,
    planet_pos: Point2,
) -> (new_pos: Point2)
    requires
        in_world(player_pos),
        planet_pos_ok(planet_pos),
        old(planet).wf(),
    ensures
        final(player).velocity == old(player).velocity,
        final(planet).variant == old(planet).variant,
        final(planet).radius == old(planet).radius,
        final(planet).rotation == old(planet).rotation,
        touches_planet(player_pos, planet_pos, old(planet).radius as int) ==> {
            &&& final(player).is_grounded
            &&& final(planet).is_playing
            &&& new_pos.x == resolve_x(player_pos, planet_pos, PLAYER_RADIUS + old(planet).radius)
            &&& new_pos.y == resolve_y(player_pos, planet_pos, PLAYER_RADIUS + old(planet).radius)
        },
        !touches_planet(player_pos, planet_pos, old(planet).radius as int) ==> {
            &&& !final(player).is_grounded
            &&& final(planet).is_playing == old(planet).is_playing
            &&& new_pos == player_pos
        },
        in_world(new_pos),
{
    let contact = contact_circles(
        player_pos,
        PLAYER_RADIUS,
        planet_pos,
        planet.radius,
        CONTACT_MARGIN,
    );
    if contact.is_some() {
        player.is_grounded = true;
        planet.is_playing = true;
        resolve_to_surface(player_pos, planet_pos, PLAYER_RADIUS + planet.radius)
    } else {
        player.is_grounded = false;
        player_pos
    }
}

/// The world position of an obstacle on the given planet's rim.
pub open spec fn obstacle_point(planet_pos: Point2, planet_radius: int, o: Obstacle) -> Point2 {
    Point2 {
        x: obstacle_pos_x(planet_pos, planet_radius, o.angle as int) as i64,
        y: obstacle_pos_y(planet_pos, planet_radius, o.angle as int) as i64,
    }
}

/// Whether the player overlaps the given obstacle (zero contact margin).
pub open spec fn hits_obstacle(
    player_pos: Point2,
    planet_pos: Point2,
    planet_radius: int,
    o: Obstacle,
) -> bool {
    separation(
        player_pos,
        PLAYER_RADIUS as int,
        obstacle_point(planet_pos, planet_radius, o),
        OBSTACLE_RADIUS as int,
    ) <= 0
}

/// Contact query between the player and every obstacle on the planet's rim:
/// reports whether any obstacle overlaps the player, which ends the game.
pub fn check_player_obstacle_collisions(
    player_pos: Point2,
    planet_pos: Point2,
    planet_radius: i64,
    obstacles: &Vec<Obstacle>,
) -> (hit: bool)
    requires
        in_world(player_pos),
        planet_pos_ok(planet_pos),
        0 <= planet_radius <= crate::planet::PLANET_START_RADIUS,
        forall|i: int| 0 <= i < obstacles@.len() ==> (#[trigger] obstacles@[i]).wf(),
    ensures
        hit <==> exists|i: int|
            0 <= i < obstacles@.len() && hits_obstacle(
                player_pos,
                planet_pos,
                planet_radius as int,
                #[trigger] obstacles@[i],
            ),
{
    let n = obstacles.len();
    let mut i: usize = 0;
    while i < n
        invariant
            n == obstacles@.len(),
            0 <= i <= n,
            in_world(player_pos),
            planet_pos_ok(planet_pos),
            0 <= planet_radius <= crate::planet::PLANET_START_RADIUS,
            forall|j: int| 0 <= j < n ==> (#[trigger] obstacles@[j]).wf(),
            forall|j: int|
                0 <= j < i ==> !hits_obstacle(
                    player_pos,
                    planet_pos,
                    planet_radius as int,
                    #[trigger] obstacles@[j],
                ),
        decreases n - i,
    {
        let opos = crate::obstacle::obstacle_position(planet_pos, planet_radius, obstacles[i].angle);
        let contact = contact_circles(player_pos, PLAYER_RADIUS, opos, OBSTACLE_RADIUS, 0);
        if contact.is_some() {
            proof {
                assert(opos == obstacle_point(planet_pos, planet_radius as int, obstacles@[i as int]));
            }
            return true;
        }
        i = i + 1;
    }
    false
}

/// The keys sampled for one frame: jump (space) and accelerated fall.
#[derive(Clone, Copy, PartialEq, Eq, Structural, Debug)]
pub struct FrameInput {
    pub jump_pressed: bool,
    pub fall_pressed: bool,
}

/// The whole game state the simulation owns: the current planet (absent
/// between despawn and respawn), the player, the obstacles, run-wide
/// progress, and the loading state machine that sequences planet spawns.
pub struct World {
    pub app_state: AppState,
    pub loading_state: LoadingState,
    pub manager: GameManager,
    pub planet: Option<Planet>,
    pub planet_pos: Point2,
    pub face: crate::planet::PlanetFaceState,
    pub player: Player,
    pub player_pos: Point2,
    pub obstacles: Vec<Obstacle>,
    pub pending_spawn: Option<PlanetSpawnEvent>,
}

/// Mathematical model of a `World`: the same fields with the obstacle list
/// abstracted to a sequence.
#[verifier::ext_equal]
pub ghost struct WorldModel {
    pub app_state: AppState,
    pub loading_state: LoadingState,
    pub manager: GameManager,
    pub planet: Option<Planet>,
    pub planet_pos: Point2,
    pub face: crate::planet::PlanetFaceState,
    pub player: Player,
    pub player_pos: Point2,
    pub obstacles: Seq<Obstacle>,
    pub pending_spawn: Option<PlanetSpawnEvent>,
}

impl View for World {
    type V = WorldModel;

    open spec fn view(&self) -> WorldModel {
        WorldModel {
            app_state: self.app_state,
            loading_state: self.loading_state,
            manager: self.manager,
            planet: self.planet,
            planet_pos: self.planet_pos,
            face: self.face,
            player: self.player,
            player_pos: self.player_pos,
            obstacles: self.obstacles@,
            pending_spawn: self.pending_spawn,
        }
    }
}

impl World {
    /// Well-formedness of the whole world.
    pub open spec fn wf(self) -> bool {
        &&& self.player.wf()
        &&& in_world(self.player_pos)
        &&& planet_pos_ok(self.planet_pos)
        &&& (self.planet matches Some(p) ==> p.wf())
        &&& (self.pending_spawn matches Some(ev) ==> in_world(ev.last_planet_position))
        &&& forall|i: int| 0 <= i < self.obstacles@.len() ==> (#[trigger] self.obstacles@[i]).wf()
    }
}

/// Gravity, jumping and the accelerated fall applied to the model, when no
/// load is pending.
pub open spec fn frame_jump_spec(w: WorldModel, input: FrameInput, dt: int) -> WorldModel {
    if w.loading_state == LoadingState::Idle {
        WorldModel {
            player: Player {
                is_grounded: w.player.is_grounded,
                velocity: crate::player::jump_velocity_spec(
                    w.player,
                    input.jump_pressed,
                    input.fall_pressed,
                    dt,
                ) as i64,
            },
            player_pos: Point2 {
                x: w.player_pos.x,
                y: crate::player::jump_y_spec(
                    w.player,
                    w.player_pos.y as int,
                    input.jump_pressed,
                    input.fall_pressed,
                    dt,
                ) as i64,
            },
            ..w
        }
    } else {
        w
    }
}

/// Player-planet contact resolution applied to the model, when no load is
/// pending and a planet is present.
pub open spec fn frame_planet_contact_spec(w: WorldModel) -> WorldModel {
    if w.loading_state == LoadingState::Idle && w.planet is Some {
        let p = w.planet->Some_0;
        if touches_planet(w.player_pos, w.planet_pos, p.radius as int) {
            WorldModel {
                player: Player { is_grounded: true, velocity: w.player.velocity },
                planet: Some(Planet { is_playing: true, ..p }),
                player_pos: Point2 {
                    x: resolve_x(w.player_pos, w.planet_pos, PLAYER_RADIUS + p.radius) as i64,
                    y: resolve_y(w.player_pos, w.planet_pos, PLAYER_RADIUS + p.radius) as i64,
                },
                ..w
            }
        } else {
            WorldModel { player: Player { is_grounded: false, velocity: w.player.velocity }, ..w }
        }
    } else {
        w
    }
}

/// A live planet's spin applied to the model.
pub open spec fn frame_rotate_spec(w: WorldModel, dt: int) -> WorldModel {
    if w.planet is Some {
        let p = w.planet->Some_0;
        WorldModel {
            planet: Some(Planet { rotation: crate::planet::rotate_spec(p, dt) as i64, ..p }),
            ..w
        }
    } else {
        w
    }
}

/// The shrink step applied to the model: a live planet loses radius; crossing
/// the shrink limit finishes it, despawns it with its obstacles, scores, and
/// queues the next variant's spawn.
pub open spec fn frame_shrink_spec(w: WorldModel, dt: int) -> WorldModel {
    if w.planet is Some && w.planet->Some_0.is_playing {
        let p = w.planet->Some_0;
        let r = crate::planet::shrunk_radius(p, dt);
        if r <= crate::planet::PLANET_SHRINK_LIMIT {
            WorldModel {
                planet: None,
                obstacles: Seq::empty(),
                pending_spawn: Some(
                    PlanetSpawnEvent {
                        planet_variant_to_spawn: p.variant.next_spec(),
                        last_planet_position: w.planet_pos,
                    },
                ),
                loading_state: LoadingState::Planet,
                manager: GameManager {
                    score: (w.manager.score + 1) as usize,
                    infinite_mode: w.manager.infinite_mode || p.variant.next_spec()
                        == crate::variant::PlanetVariant::Earth,
                },
                ..w
            }
        } else {
            WorldModel { planet: Some(Planet { radius: r as i64, ..p }), ..w }
        }
    } else {
        w
    }
}

/// One frame of obstacle orbiting applied to the model, while the planet is
/// live.
pub open spec fn frame_orbit_spec(w: WorldModel, dt: int) -> WorldModel {
    if w.planet is Some && w.planet->Some_0.is_playing {
        WorldModel {
            obstacles: Seq::new(
                w.obstacles.len(),
                |i: int|
                    Obstacle {
                        angle: crate::obstacle::orbit_step_spec(w.obstacles[i].angle as int, dt)
                            as i64,
                    },
            ),
            ..w
        }
    } else {
        w
    }
}

/// The player-obstacle contact check applied to the model: any overlap ends
/// the game.
pub open spec fn frame_hit_spec(w: WorldModel) -> WorldModel {
    if w.planet is Some && (exists|i: int|
        0 <= i < w.obstacles.len() && hits_obstacle(
            w.player_pos,
            w.planet_pos,
            w.planet->Some_0.radius as int,
            #[trigger] w.obstacles[i],
        )) {
        WorldModel { app_state: AppState::GameOver, ..w }
    } else {
        w
    }
}

/// The face update applied to the model, while the planet is live: the face
/// worsens at the radius thresholds and otherwise keeps its previous value.
pub open spec fn frame_face_spec(w: WorldModel) -> WorldModel {
    if w.planet is Some && w.planet->Some_0.is_playing {
        WorldModel {
            face: crate::planet::face_step_spec(w.face, w.planet->Some_0.radius as int),
            ..w
        }
    } else {
        w
    }
}

/// One whole frame applied to the model, in the order the game runs its
/// systems: movement, planet contact, spin, shrink (and planet transition),
/// obstacle orbits, obstacle contact, face. Nothing happens after game over.
pub open spec fn frame_spec(w: WorldModel, input: FrameInput, dt: int) -> WorldModel {
    if w.app_state != AppState::Playing {
        w
    } else {
        frame_face_spec(
            frame_hit_spec(
                frame_orbit_spec(
                    frame_shrink_spec(
                        frame_rotate_spec(frame_planet_contact_spec(frame_jump_spec(w, input, dt)), dt),
                        dt,
                    ),
                    dt,
                ),
            ),
        )
    }
}

impl World {
    /// Advances the world by one frame of at most a second, exactly as the
    /// frame model describes.
    pub fn frame(&mut self, input: FrameInput, dt_ms: i64)
        requires
            old(self).wf(),
            old(self).manager.score < usize::MAX,
            0 <= dt_ms <= FRAME_LIMIT_MS,
        ensures
            final(self)@ == frame_spec(old(self)@, input, dt_ms as int),
            final(self).wf(),
    {
        if !matches!(self.app_state, AppState::Playing) {
            return ;
        }
        let ghost w0 = self@;
        // Gravity, jump and fall integration.
        if matches!(self.loading_state, LoadingState::Idle) {
            let ny = crate::player::player_jump(
                &mut self.player,
                self.player_pos.y,
                input.jump_pressed,
                input.fall_pressed,
                dt_ms,
            );
            self.player_pos = Point2 { x: self.player_pos.x, y: ny };
        }
        let ghost w1 = frame_jump_spec(w0, input, dt_ms as int);
        proof {
            assert(self@ =~= w1);
        }
        // Player-planet contact resolution.
        if matches!(self.loading_state, LoadingState::Idle) {
            if let Some(mut p) = self.planet {
                let np = check_player_planet_collisions(
                    &mut self.player,
                    self.player_pos,
                    &mut p,
                    self.planet_pos,
                );
                self.player_pos = np;
                self.planet = Some(p);
            }
        }
        let ghost w2 = frame_planet_contact_spec(w1);
        proof {
            assert(self@ =~= w2);
        }
        // Planet spin.
        if let Some(mut p) = self.planet {
            crate::planet::rotate_planets(&mut p, dt_ms);
            self.planet = Some(p);
        }
        let ghost w3 = frame_rotate_spec(w2, dt_ms as int);
        proof {
            assert(self@ =~= w3);
        }
        // Shrink, and the transition to the next planet.
        if let Some(mut p) = self.planet {
            let ev = crate::planet::shrink_current_planet(
                &mut p,
                self.planet_pos,
                &mut self.manager,
                dt_ms,
            );
            if let Some(e) = ev {
                self.pending_spawn = Some(e);
                self.loading_state = LoadingState::Planet;
                self.planet = None;
                self.obstacles = Vec::new();
            } else {
                self.planet = Some(p);
            }
        }
        let ghost w4 = frame_shrink_spec(w3, dt_ms as int);
        proof {
            assert(self@ =~= w4);
        }
        // Obstacle orbits.
        if let Some(p) = self.planet {
            if p.is_playing {
                crate::obstacle::move_obstacles_on_planet(&mut self.obstacles, dt_ms);
            }
        }
        let ghost w5 = frame_orbit_spec(w4, dt_ms as int);
        proof {
            assert(self@ =~= w5);
        }
        // Player-obstacle contact: any overlap ends the game.
        if let Some(p) = self.planet {
            let hit = check_player_obstacle_collisions(
                self.player_pos,
                self.planet_pos,
                p.radius,
                &self.obstacles,
            );
            if hit {
                self.app_state = AppState::GameOver;
            }
        }
        let ghost w6 = frame_hit_spec(w5);
        proof {
            assert(self@ =~= w6);
        }
        // The planet's face follows its radius, only ever worsening.
        if let Some(p) = self.planet {
            if p.is_playing {
                self.face = crate::planet::manage_planet_face(self.face, p.radius);
            }
        }
        proof {
            assert(self@ =~= frame_face_spec(w6));
        }
    }
}

/// Where the planet requested by `ev` is placed: two planet diameters below
/// the previous one, kept at the world's margin.
pub open spec fn spawn_pos_spec(ev: PlanetSpawnEvent) -> Point2 {
    Point2 {
        x: crate::clamp_spec(
            ev.last_planet_position.x as int,
            (-COORD_LIMIT + PLANET_POS_MARGIN) as int,
            (COORD_LIMIT - PLANET_POS_MARGIN) as int,
        ) as i64,
        y: crate::clamp_spec(
            ev.last_planet_position.y - crate::planet::PLANET_SPAWN_GAP,
            (-COORD_LIMIT + PLANET_POS_MARGIN) as int,
            (COORD_LIMIT - PLANET_POS_MARGIN) as int,
        ) as i64,
    }
}

impl World {
    /// The world as the game starts: no planet yet, a spawn for the first
    /// variant queued above the screen, and the player airborne at the start
    /// height.
    pub fn new() -> (w: World)
        ensures
            w.app_state == AppState::Playing,
            w.loading_state == LoadingState::Planet,
            w.manager == (GameManager { infinite_mode: false, score: 0 }),
            w.planet is None,
            w.pending_spawn == Some(
                PlanetSpawnEvent {
                    planet_variant_to_spawn: crate::variant::PlanetVariant::Earth,
                    last_planet_position: Point2 { x: 0, y: crate::planet::PLANET_SPAWN_GAP },
                },
            ),
            w.player == (Player { is_grounded: false, velocity: 0 }),
            w.player_pos == (Point2 { x: 0, y: crate::player::PLAYER_START_POSITION_Y }),
            w.obstacles@.len() == 0,
            w.face == crate::planet::PlanetFaceState::Good,
            w.planet_pos == (Point2 { x: 0, y: 0 }),
            w.wf(),
    {
        World {
            app_state: AppState::Playing,
            loading_state: LoadingState::Planet,
            manager: GameManager { infinite_mode: false, score: 0 },
            planet: None,
            planet_pos: Point2 { x: 0, y: 0 },
            face: crate::planet::PlanetFaceState::Good,
            player: crate::player::Player::spawn(),
            player_pos: Point2 { x: 0, y: crate::player::PLAYER_START_POSITION_Y },
            obstacles: Vec::new(),
            pending_spawn: Some(
                PlanetSpawnEvent {
                    planet_variant_to_spawn: crate::variant::PlanetVariant::Earth,
                    last_planet_position: Point2 { x: 0, y: crate::planet::PLANET_SPAWN_GAP },
                },
            ),
        }
    }

    /// Starts a run: resets the score and story mode, queues the first
    /// planet's spawn, and respawns the player at the start height. Mirrors
    /// what entering the playing state does.
    pub fn start_game(&mut self)
        requires
            old(self).wf(),
        ensures
            final(self)@ == (WorldModel {
                app_state: AppState::Playing,
                loading_state: LoadingState::Planet,
                manager: GameManager { infinite_mode: false, score: 0 },
                pending_spawn: Some(
                    PlanetSpawnEvent {
                        planet_variant_to_spawn: crate::variant::PlanetVariant::Earth,
                        last_planet_position: Point2 {
                            x: 0,
                            y: crate::planet::PLANET_SPAWN_GAP,
                        },
                    },
                ),
                player: Player { is_grounded: false, velocity: 0 },
                player_pos: Point2 { x: 0, y: crate::player::PLAYER_START_POSITION_Y },
                ..old(self)@
            }),
            final(self).wf(),
    {
        self.app_state = AppState::Playing;
        self.loading_state = LoadingState::Planet;
        self.manager = GameManager { infinite_mode: false, score: 0 };
        self.pending_spawn = Some(
            PlanetSpawnEvent {
                planet_variant_to_spawn: crate::variant::PlanetVariant::Earth,
                last_planet_position: Point2 { x: 0, y: crate::planet::PLANET_SPAWN_GAP },
            },
        );
        self.player = crate::player::Player::spawn();
        self.player_pos = Point2 { x: 0, y: crate::player::PLAYER_START_POSITION_Y };
        proof {
            assert(self@ =~= (WorldModel {
                app_state: AppState::Playing,
                loading_state: LoadingState::Planet,
                manager: GameManager { infinite_mode: false, score: 0 },
                pending_spawn: Some(
                    PlanetSpawnEvent {
                        planet_variant_to_spawn: crate::variant::PlanetVariant::Earth,
                        last_planet_position: Point2 {
                            x: 0,
                            y: crate::planet::PLANET_SPAWN_GAP,
                        },
                    },
                ),
                player: Player { is_grounded: false, velocity: 0 },
                player_pos: Point2 { x: 0, y: crate::player::PLAYER_START_POSITION_Y },
                ..old(self)@
            }));
        }
    }

    /// Clears the board after a game over: the planet, its obstacles, the
    /// pending spawn and the player are all despawned (the player is reset to
    /// its spawn state, as the next run will respawn it).
    pub fn restart_game(&mut self)
        requires
            old(self).wf(),
        ensures
            final(self)@ == (WorldModel {
                planet: None,
                obstacles: Seq::empty(),
                pending_spawn: None,
                player: Player { is_grounded: false, velocity: 0 },
                player_pos: Point2 { x: 0, y: crate::player::PLAYER_START_POSITION_Y },
                ..old(self)@
            }),
            final(self).wf(),
    {
        self.planet = None;
        self.obstacles = Vec::new();
        self.pending_spawn = None;
        self.player = crate::player::Player::spawn();
        self.player_pos = Point2 { x: 0, y: crate::player::PLAYER_START_POSITION_Y };
        proof {
            assert(self@ =~= (WorldModel {
                planet: None,
                obstacles: Seq::empty(),
                pending_spawn: None,
                player: Player { is_grounded: false, velocity: 0 },
                player_pos: Point2 { x: 0, y: crate::player::PLAYER_START_POSITION_Y },
                ..old(self)@
            }));
        }
    }

    /// Consumes the pending spawn request and places the fresh planet two
    /// diameters below the previous one (held at the world's margin), with a
    /// good face. Mirrors the planet spawn that runs when planet loading
    /// starts; does nothing when no spawn is pending.
    pub fn spawn_planet(&mut self)
        requires
            old(self).wf(),
        ensures
            old(self).pending_spawn matches Some(ev) ==> final(self)@ == (WorldModel {
                planet: Some(
                    Planet {
                        variant: ev.planet_variant_to_spawn,
                        is_playing: false,
                        radius: crate::planet::PLANET_START_RADIUS,
                        rotation: 0,
                    },
                ),
                planet_pos: spawn_pos_spec(ev),
                face: crate::planet::PlanetFaceState::Good,
                pending_spawn: None,
                ..old(self)@
            }),
            old(self).pending_spawn is None ==> *final(self) == *old(self),
            final(self).wf(),
    {
        if let Some(ev) = self.pending_spawn {
            let lim: i64 = COORD_LIMIT - PLANET_POS_MARGIN;
            self.planet_pos = Point2 {
                x: crate::clamp(ev.last_planet_position.x, -lim, lim),
                y: crate::clamp(
                    ev.last_planet_position.y - crate::planet::PLANET_SPAWN_GAP,
                    -lim,
                    lim,
                ),
            };
            self.planet = Some(crate::planet::Planet::spawn(ev.planet_variant_to_spawn));
            self.face = crate::planet::PlanetFaceState::Good;
            self.pending_spawn = None;
            proof {
                assert(self@ =~= (WorldModel {
                    planet: Some(
                        Planet {
                            variant: ev.planet_variant_to_spawn,
                            is_playing: false,
                            radius: crate::planet::PLANET_START_RADIUS,
                            rotation: 0,
                        },
                    ),
                    planet_pos: spawn_pos_spec(ev),
                    face: crate::planet::PlanetFaceState::Good,
                    pending_spawn: None,
                    ..old(self)@
                }));
            }
        }
    }

    /// Moves planet loading on to obstacle loading once the caller reports
    /// the planet's assets ready.
    pub fn check_planets_loading(&mut self, assets_loaded: bool)
        requires
            old(self).wf(),
        ensures
            final(self)@ == (WorldModel {
                loading_state: if old(self).loading_state == LoadingState::Planet
                    && assets_loaded {
                    LoadingState::Obstacles
                } else {
                    old(self).loading_state
                },
                ..old(self)@
            }),
            final(self).wf(),
    {
        if assets_loaded && matches!(self.loading_state, LoadingState::Planet) {
            self.loading_state = LoadingState::Obstacles;
        }
        proof {
            assert(self@ =~= (WorldModel {
                loading_state: if old(self).loading_state == LoadingState::Planet
                    && assets_loaded {
                    LoadingState::Obstacles
                } else {
                    old(self).loading_state
                },
                ..old(self)@
            }));
        }
    }

    /// Populates the fresh planet with obstacles: the variant's script in
    /// story mode, or between one and seven random angles in infinite mode.
    /// Mirrors the obstacle spawn that runs when obstacle loading starts;
    /// does nothing without a planet.
    pub fn spawn_obstacles(&mut self)
        requires
            old(self).wf(),
        ensures
            old(self).planet matches Some(p) ==> {
                &&& final(self)@ == (WorldModel { obstacles: final(self)@.obstacles, ..old(self)@ })
                &&& !old(self).manager.infinite_mode ==> {
                    &&& final(self)@.obstacles.len() == p.variant.obstacle_angles_spec().len()
                    &&& forall|i: int|
                        0 <= i < final(self)@.obstacles.len()
                            ==> (#[trigger] final(self)@.obstacles[i]).angle
                            == p.variant.obstacle_angles_spec()[i]
                }
                &&& old(self).manager.infinite_mode ==> 1 <= final(self)@.obstacles.len()
                    <= crate::obstacle::OBSTACLES_MAX_NUM
                &&& old(self).manager.infinite_mode ==> forall|i: int|
                    0 <= i < final(self)@.obstacles.len()
                        ==> crate::obstacle::OBSTACLE_ANGLE_FLOOR
                        <= (#[trigger] final(self)@.obstacles[i]).angle <= crate::FULL_TURN
                &&& old(self).manager.infinite_mode ==> forall|i: int|
                    0 <= i < final(self)@.obstacles.len() ==> crate::obstacle::follows_gap_rule(
                        crate::obstacle::prev_angle(final(self)@.obstacles, i),
                        (#[trigger] final(self)@.obstacles[i]).angle as int,
                    )
            },
            old(self).planet is None ==> *final(self) == *old(self),
            final(self).wf(),
    {
        if let Some(p) = self.planet {
            self.obstacles = crate::obstacle::spawn_obstacles(p.variant, self.manager.infinite_mode);
            proof {
                assert(self@ =~= (WorldModel { obstacles: self@.obstacles, ..old(self)@ }));
            }
        }
    }

    /// Finishes the loading sequence once the caller reports the obstacles'
    /// assets ready: the game is playable again.
    pub fn check_obstacles_loading(&mut self, assets_loaded: bool)
        requires
            old(self).wf(),
        ensures
            final(self)@ == (WorldModel {
                loading_state: if old(self).loading_state == LoadingState::Obstacles
                    && assets_loaded {
                    LoadingState::Idle
                } else {
                    old(self).loading_state
                },
                ..old(self)@
            }),
            final(self).wf(),
    {
        if assets_loaded && matches!(self.loading_state, LoadingState::Obstacles) {
            self.loading_state = LoadingState::Idle;
        }
        proof {
            assert(self@ =~= (WorldModel {
                loading_state: if old(self).loading_state == LoadingState::Obstacles
                    && assets_loaded {
                    LoadingState::Idle
                } else {
                    old(self).loading_state
                },
                ..old(self)@
            }));
        }
    }
}

/// A planet's radius never grows across a frame: whatever the frame does,
/// a planet that is still there afterwards is no larger than before.
pub proof fn lemma_radius_never_grows(w: WorldModel, input: FrameInput, dt: int)
    requires
        0 <= dt,
    ensures
        w.planet matches Some(p1) ==> (frame_spec(w, input, dt).planet matches Some(p2)
            ==> p2.radius <= p1.radius),
{
    vstd::arithmetic::div_mod::lemma_div_pos_is_pos(
        crate::planet::PLANET_SHRINK_RATE * dt,
        1000,
    );
}

/// Once the game is over, a frame changes nothing.
pub proof fn lemma_game_over_is_absorbing(w: WorldModel, input: FrameInput, dt: int)
    ensures
        w.app_state == AppState::GameOver ==> frame_spec(w, input, dt) == w,
{
}

} // verus!
