use vstd::prelude::*;
use crate::canvas::{default_symbol, CanvasSymbol, SymbolView, TextCanvas};
use crate::color::Color;
use crate::component::{Appearance, Position};
use crate::map::{Tile, TileMap};
use crate::world::World;

verus! {

/// The symbol that draws `tile`: a blank space on black for open ground, a
/// white block for a wall.
pub open spec fn spec_symbol_for_tile(tile: Tile) -> SymbolView {
    match tile {
        Tile::Blank => SymbolView {
            character: ' ',
            foreground: Color::Black,
            background: Color::Black,
            modifiers: Seq::empty(),
        },
        Tile::Wall => SymbolView {
            character: '#',
            foreground: Color::Black,
            background: Color::White,
            modifiers: Seq::empty(),
        },
    }
}

/// The symbol drawn for world cell `(x, y)`: its tile inside the map, and a
/// distinct void glyph outside it.
pub open spec fn spec_symbol_for_location(map: TileMap, x: int, y: int) -> SymbolView {
    if map.spec_in_bounds(x, y) {
        spec_symbol_for_tile(map.spec_tile(x, y))
    } else {
        SymbolView {
            character: '?',
            foreground: Color::Rgb(30, 30, 30),
            background: Color::Rgb(0, 0, 0),
            modifiers: Seq::empty(),
        }
    }
}

/// The symbol an entity's appearance draws. Fully opaque: it replaces the
/// cell it lands on.
pub open spec fn spec_symbol_for_appearance(a: Appearance) -> SymbolView {
    SymbolView {
        character: a.icon,
        foreground: a.foreground,
        background: a.background,
        modifiers: a.modifiers@,
    }
}

/// The lowest entity index at or after `i` tagged `Camera` that also has a
/// position; the renderer centers its viewport there.
pub open spec fn spec_first_camera_from(
    positions: Seq<Option<Position>>,
    cameras: Seq<bool>,
    i: int,
) -> Option<int>
    decreases positions.len() - i,
{
    if !(0 <= i < positions.len()) {
        None
    } else if cameras[i] && positions[i] is Some {
        Some(i)
    } else {
        spec_first_camera_from(positions, cameras, i + 1)
    }
}

/// True if world `(wx, wy)` seen from camera `cam` lands on canvas cell
/// `(ci, cj)` of a `w` by `h` canvas.
pub open spec fn spec_projects_to(
    p: Position,
    cam: Position,
    w: nat,
    h: nat,
    ci: int,
    cj: int,
) -> bool {
    &&& p.x - cam.x + (w / 2) == ci
    &&& p.y - cam.y + (h / 2) == cj
    &&& 0 <= ci < w
    &&& 0 <= cj < h
}

/// The symbol canvas cell `(i, j)` holds after the map pass: cells under the
/// camera window show the world behind them; cells beyond it (the last column
/// and row when a dimension is odd) keep their previous symbols.
pub open spec fn spec_map_pass_cell(
    map: TileMap,
    cam: Position,
    w: nat,
    h: nat,
    pre: SymbolView,
    i: int,
    j: int,
) -> SymbolView {
    if i < 2 * (w / 2) && j < 2 * (h / 2) {
        spec_symbol_for_location(map, i + cam.x - (w / 2), j + cam.y - (h / 2))
    } else {
        pre
    }
}

/// True if entity `k` has a position and an appearance and is drawn onto
/// canvas cell `(ci, cj)`.
pub open spec fn spec_draws_at(
    positions: Seq<Option<Position>>,
    appearances: Seq<Option<Appearance>>,
    cam: Position,
    w: nat,
    h: nat,
    k: int,
    ci: int,
    cj: int,
) -> bool {
    &&& positions[k] is Some
    &&& appearances[k] is Some
    &&& spec_projects_to(positions[k]->Some_0, cam, w, h, ci, cj)
}

/// The last entity among the first `n` drawn onto canvas cell `(ci, cj)`:
/// entities draw in index order and may overlap, last writer wins.
pub open spec fn spec_last_drawer(
    positions: Seq<Option<Position>>,
    appearances: Seq<Option<Appearance>>,
    cam: Position,
    w: nat,
    h: nat,
    ci: int,
    cj: int,
    n: int,
) -> Option<int>
    decreases n,
{
    if n <= 0 {
        None
    } else if spec_draws_at(positions, appearances, cam, w, h, n - 1, ci, cj) {
        Some(n - 1)
    } else {
        spec_last_drawer(positions, appearances, cam, w, h, ci, cj, n - 1)
    }
}

/// The symbol canvas cell `(ci, cj)` holds after the full render pass with
/// camera at `cam`: the appearance of the last entity drawn there, else the
/// map or void layer, else the previous symbol.
pub open spec fn spec_render_cell(
    map: TileMap,
    positions: Seq<Option<Position>>,
    appearances: Seq<Option<Appearance>>,
    cam: Position,
    w: nat,
    h: nat,
    pre: SymbolView,
    ci: int,
    cj: int,
) -> SymbolView {
    match spec_last_drawer(positions, appearances, cam, w, h, ci, cj, positions.len() as int) {
        Some(k) => spec_symbol_for_appearance(appearances[k]->Some_0),
        None => spec_map_pass_cell(map, cam, w, h, pre, ci, cj),
    }
}

/// Returns the `CanvasSymbol` that draws `tile`.
fn get_canvas_symbol_for_tile(tile: &Tile) -> (r: CanvasSymbol)
    ensures
        r@ == spec_symbol_for_tile(*tile),
{
    let r = match tile {
        Tile::Blank => CanvasSymbol {
            character: ' ',
            foreground: Color::Black,
            background: Color::Black,
            modifiers: Vec::new(),
        },
        Tile::Wall => CanvasSymbol {
            character: '#',
            foreground: Color::Black,
            background: Color::White,
            modifiers: Vec::new(),
        },
    };
    proof {
        assert(r@ =~= spec_symbol_for_tile(*tile));
    }
    r
}

/// Returns the `CanvasSymbol` for world cell `(x, y)`.
fn get_symbol_for_location(x: i64, y: i64, map: &TileMap) -> (r: CanvasSymbol)
    requires
        map.well_formed(),
    ensures
        r@ == spec_symbol_for_location(*map, x as int, y as int),
{
    if x >= i32::MIN as i64 && x <= i32::MAX as i64 && y >= i32::MIN as i64 && y <= i32::MAX
        as i64 {
        let xi = x as i32;
        let yi = y as i32;
        if map.in_bounds(xi, yi) {
            let xu = crate::conversions::as_usize(xi);
            let yu = crate::conversions::as_usize(yi);
            return get_canvas_symbol_for_tile(&map.tiles[xu][yu]);
        }
    }
    let r = CanvasSymbol {
        character: '?',
        foreground: Color::Rgb(30, 30, 30),
        background: Color::Rgb(0, 0, 0),
        modifiers: Vec::new(),
    };
    proof {
        assert(r@ =~= spec_symbol_for_location(*map, x as int, y as int));
    }
    r
}

/// Returns the `CanvasSymbol` that draws `appearance`.
fn get_canvas_symbol_for_appearence(appearance: &Appearance) -> (r: CanvasSymbol)
    ensures
        r@ == spec_symbol_for_appearance(*appearance),
{
    let mut modifiers: Vec<crate::canvas::Modifier> = Vec::new();
    let mut i: usize = 0;
    let n = appearance.modifiers.len();
    while i < n
        invariant
            i <= n,
            n == appearance.modifiers@.len(),
            modifiers@ == appearance.modifiers@.take(i as int),
        decreases n - i,
    {
        modifiers.push(appearance.modifiers[i]);
        proof {
            assert(modifiers@ =~= appearance.modifiers@.take(i + 1));
        }
        i = i + 1;
    }
    proof {
        assert(modifiers@ =~= appearance.modifiers@);
    }
    CanvasSymbol {
        character: appearance.icon,
        foreground: appearance.foreground,
        background: appearance.background,
        modifiers,
    }
}

/// Converts world space `(x, y)` to canvas space, as seen from
/// `camera_center`: canvas cell
/// `(x - camera.x + width / 2, y - camera.y + height / 2)`, or `None` when
/// that cell is not on the canvas.
pub fn world_to_canvas(x: i64, y: i64, camera_center: &Position, canvas: &TextCanvas) -> (r: Option<
    (usize, usize),
>)
    requires
        canvas.well_formed(),
    ensures
        ({
            let px = x - camera_center.x + canvas.spec_width() / 2;
            let py = y - camera_center.y + canvas.spec_height() / 2;
            if 0 <= px < canvas.spec_width() && 0 <= py < canvas.spec_height() {
                r == Some((px as usize, py as usize))
            } else {
                r is None
            }
        }),
{
    let (w, h) = canvas.dimensions();
    let px: i128 = x as i128 - camera_center.x as i128 + (w / 2) as i128;
    let py: i128 = y as i128 - camera_center.y as i128 + (h / 2) as i128;
    if px >= 0 && px < w as i128 && py >= 0 && py < h as i128 {
        Some((px as usize, py as usize))
    } else {
        None
    }
}

/// Draws every world cell of the camera window onto the canvas, as
/// `spec_map_pass_cell` says.
fn draw_map(camera_position: Position, canvas: &mut TextCanvas, map: &TileMap)
    requires
        old(canvas).well_formed(),
        map.well_formed(),
    ensures
        final(canvas).well_formed(),
        final(canvas).spec_width() == old(canvas).spec_width(),
        final(canvas).spec_height() == old(canvas).spec_height(),
        forall|i: int, j: int|
            0 <= i < old(canvas).spec_width() && 0 <= j < old(canvas).spec_height()
                ==> #[trigger] final(canvas).spec_symbol(i, j) == spec_map_pass_cell(
                *map,
                camera_position,
                old(canvas).spec_width(),
                old(canvas).spec_height(),
                old(canvas).spec_symbol(i, j),
                i,
                j,
            ),
{
    let ghost pre = *canvas;
    let (w, h) = canvas.dimensions();
    let ghost wn = pre.spec_width();
    let ghost hn = pre.spec_height();
    proof {
        assert(2 * (wn / 2) <= wn);
        assert(2 * (hn / 2) <= hn);
    }
    let start_x: i64 = camera_position.x as i64 - (w / 2) as i64;
    let end_x: i64 = camera_position.x as i64 + (w / 2) as i64;
    let start_y: i64 = camera_position.y as i64 - (h / 2) as i64;
    let end_y: i64 = camera_position.y as i64 + (h / 2) as i64;
    let mut x: i64 = start_x;
    while x < end_x
        invariant
            start_x <= x <= end_x,
            start_x == camera_position.x - (wn / 2),
            end_x == camera_position.x + (wn / 2),
            start_y == camera_position.y - (hn / 2),
            end_y == camera_position.y + (hn / 2),
            map.well_formed(),
            canvas.well_formed(),
            pre.well_formed(),
            canvas.spec_width() == wn,
            canvas.spec_height() == hn,
            wn == pre.spec_width(),
            hn == pre.spec_height(),
            forall|i: int, j: int|
                0 <= i < wn && 0 <= j < hn ==> #[trigger] canvas.spec_symbol(i, j) == (if i < x
                    - start_x && j < 2 * (hn / 2) {
                    spec_symbol_for_location(
                        *map,
                        i + camera_position.x - (wn / 2),
                        j + camera_position.y - (hn / 2),
                    )
                } else {
                    pre.spec_symbol(i, j)
                }),
        decreases end_x - x,
    {
        let mut y: i64 = start_y;
        while y < end_y
            invariant
                start_x <= x < end_x,
                start_y <= y <= end_y,
                start_x == camera_position.x - (wn / 2),
                end_x == camera_position.x + (wn / 2),
                start_y == camera_position.y - (hn / 2),
                end_y == camera_position.y + (hn / 2),
                map.well_formed(),
                canvas.well_formed(),
                pre.well_formed(),
                canvas.spec_width() == wn,
                canvas.spec_height() == hn,
                wn == pre.spec_width(),
                hn == pre.spec_height(),
                2 * (wn / 2) <= wn,
                2 * (hn / 2) <= hn,
                forall|i: int, j: int|
                    0 <= i < wn && 0 <= j < hn ==> #[trigger] canvas.spec_symbol(i, j) == (if (i < x
                        - start_x && j < 2 * (hn / 2)) || (i == x - start_x && j < y - start_y) {
                        spec_symbol_for_location(
                            *map,
                            i + camera_position.x - (wn / 2),
                            j + camera_position.y - (hn / 2),
                        )
                    } else {
                        pre.spec_symbol(i, j)
                    }),
            decreases end_y - y,
        {
            let symbol = get_symbol_for_location(x, y, map);
            match world_to_canvas(x, y, &camera_position, canvas) {
                Some((px, py)) => {
                    canvas.set_symbol(px, py, symbol);
                },
                None => {},
            }
            y = y + 1;
        }
        x = x + 1;
    }
}

/// Draws every entity that has both a position and an appearance, in entity
/// order, as `spec_last_drawer` says; entities may overlap and the last drawn
/// wins.
fn draw_entities(
    positions: &Vec<Option<Position>>,
    appearances: &Vec<Option<Appearance>>,
    camera_position: Position,
    canvas: &mut TextCanvas,
)
    requires
        old(canvas).well_formed(),
        positions@.len() == appearances@.len(),
    ensures
        final(canvas).well_formed(),
        final(canvas).spec_width() == old(canvas).spec_width(),
        final(canvas).spec_height() == old(canvas).spec_height(),
        forall|ci: int, cj: int|
            0 <= ci < old(canvas).spec_width() && 0 <= cj < old(canvas).spec_height()
                ==> #[trigger] final(canvas).spec_symbol(ci, cj) == (match spec_last_drawer(
                positions@,
                appearances@,
                camera_position,
                old(canvas).spec_width(),
                old(canvas).spec_height(),
                ci,
                cj,
                positions@.len() as int,
            ) {
                Some(k) => spec_symbol_for_appearance(appearances@[k]->Some_0),
                None => old(canvas).spec_symbol(ci, cj),
            }),
{
    let ghost pre = *canvas;
    let ghost wn = pre.spec_width();
    let ghost hn = pre.spec_height();
    let n = positions.len();
    let mut k: usize = 0;
    while k < n
        invariant
            k <= n,
            n == positions@.len(),
            n == appearances@.len(),
            canvas.well_formed(),
            pre.well_formed(),
            canvas.spec_width() == wn,
            canvas.spec_height() == hn,
            wn == pre.spec_width(),
            hn == pre.spec_height(),
            forall|ci: int, cj: int|
                0 <= ci < wn && 0 <= cj < hn ==> #[trigger] canvas.spec_symbol(ci, cj) == (
                match spec_last_drawer(
                    positions@,
                    appearances@,
                    camera_position,
                    wn,
                    hn,
                    ci,
                    cj,
                    k as int,
                ) {
                    Some(m) => spec_symbol_for_appearance(appearances@[m]->Some_0),
                    None => pre.spec_symbol(ci, cj),
                }),
        decreases n - k,
    {
        if let Some(p) = positions[k] {
            match &appearances[k] {
                Some(appearance) => {
                    match world_to_canvas(p.x as i64, p.y as i64, &camera_position, canvas) {
                        Some((px, py)) => {
                            let symbol = get_canvas_symbol_for_appearence(appearance);
                            canvas.set_symbol(px, py, symbol);
                        },
                        None => {},
                    }
                },
                None => {},
            }
        }
        k = k + 1;
    }
}

/// Returns the position of the camera the renderer uses: the lowest-indexed
/// entity tagged `Camera` that has a position.
fn get_camera_position(positions: &Vec<Option<Position>>, cameras: &Vec<bool>) -> (r: Option<
    Position,
>)
    requires
        cameras@.len() == positions@.len(),
    ensures
        ({
            match spec_first_camera_from(positions@, cameras@, 0) {
                Some(i) => r == Some(positions@[i]->Some_0),
                None => r is None,
            }
        }),
{
    let n = positions.len();
    let mut i: usize = 0;
    while i < n
        invariant
            i <= n,
            n == positions@.len(),
            n == cameras@.len(),
            spec_first_camera_from(positions@, cameras@, 0) == spec_first_camera_from(
                positions@,
                cameras@,
                i as int,
            ),
        decreases n - i,
    {
        if cameras[i] {
            if let Some(p) = positions[i] {
                return Some(p);
            }
        }
        i = i + 1;
    }
    None
}

/// Projection round trip, first half: the world coordinate under the camera
/// itself always projects to the canvas center `(w / 2, h / 2)`.
pub proof fn lemma_projection_center(cam: Position, w: nat, h: nat)
    requires
        w >= 1,
        h >= 1,
    ensures
        spec_projects_to(cam, cam, w, h, (w / 2) as int, (h / 2) as int),
{
}

/// Projection round trip, second half: for even canvas dimensions, a world
/// coordinate outside the camera window
/// `[cam - w / 2, cam + w / 2) x [cam - h / 2, cam + h / 2)` projects to no
/// canvas cell at all.
pub proof fn lemma_projection_outside_window(
    p: Position,
    cam: Position,
    w: nat,
    h: nat,
    ci: int,
    cj: int,
)
    requires
        w % 2 == 0,
        h % 2 == 0,
        p.x < cam.x - (w / 2) || p.x >= cam.x + (w / 2) || p.y < cam.y - (h / 2) || p.y >= cam.y + (
        h / 2),
    ensures
        !spec_projects_to(p, cam, w, h, ci, cj),
{
    assert(2 * (w / 2) == w);
    assert(2 * (h / 2) == h);
}

/// System that renders the area near the camera onto the world's canvas.
pub struct TextRenderSystem;

impl TextRenderSystem {
    /// One render pass: with no camera the canvas is untouched; otherwise
    /// every canvas cell is given by `spec_render_cell` — the map layer under
    /// the camera window, then every positioned, drawable entity on top.
    /// Reads only; no entity is mutated.
    pub fn run(&self, world: &mut World)
        requires
            old(world).well_formed(),
        ensures
            final(world).well_formed(),
            World::same_entities(*old(world), *final(world)),
            final(world).map == old(world).map,
            final(world).tick == old(world).tick,
            ({
                match spec_first_camera_from(old(world).positions@, old(world).cameras@, 0) {
                    None => final(world).canvas == old(world).canvas,
                    Some(c) => {
                        let cam = old(world).positions@[c]->Some_0;
                        &&& final(world).canvas.spec_width() == old(world).canvas.spec_width()
                        &&& final(world).canvas.spec_height() == old(world).canvas.spec_height()
                        &&& forall|ci: int, cj: int|
                            0 <= ci < old(world).canvas.spec_width() && 0 <= cj < old(
                                world,
                            ).canvas.spec_height() ==> #[trigger] final(world).canvas.spec_symbol(
                                ci,
                                cj,
                            ) == spec_render_cell(
                                old(world).map,
                                old(world).positions@,
                                old(world).appearances@,
                                cam,
                                old(world).canvas.spec_width(),
                                old(world).canvas.spec_height(),
                                old(world).canvas.spec_symbol(ci, cj),
                                ci,
                                cj,
                            )
                    },
                }
            }),
    {
        let camera_position = match get_camera_position(&world.positions, &world.cameras) {
            Some(p) => p,
            None => {
                return ;
            },
        };
        draw_map(camera_position, &mut world.canvas, &world.map);
        draw_entities(&world.positions, &world.appearances, camera_position, &mut world.canvas);
    }
}

} // verus!
