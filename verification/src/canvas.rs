use vstd::prelude::*;
use crate::color;
use crate::color::Color;
use crate::conversions;
use crate::map::TileMap;

verus! {

/// A text style flag carried by a drawn symbol.
#[derive(Copy, Clone, PartialEq, Eq, Structural, Debug)]
pub enum Modifier {
    Bold,
    Dim,
    Italic,
    Underlined,
    SlowBlink,
    RapidBlink,
    Reversed,
    Hidden,
    CrossedOut,
}

/// One styled glyph of the canvas.
#[derive(Clone, PartialEq, Debug)]
pub struct CanvasSymbol {
    pub character: char,
    pub foreground: Color,
    pub background: Color,
    pub modifiers: Vec<Modifier>,
}

/// The mathematical value of a canvas symbol.
pub struct SymbolView {
    pub character: char,
    pub foreground: Color,
    pub background: Color,
    pub modifiers: Seq<Modifier>,
}

impl View for CanvasSymbol {
    type V = SymbolView;

    open spec fn view(&self) -> SymbolView {
        SymbolView {
            character: self.character,
            foreground: self.foreground,
            background: self.background,
            modifiers: self.modifiers@,
        }
    }
}

/// The symbol a fresh canvas cell holds: a blank space on black.
pub open spec fn default_symbol() -> SymbolView {
    SymbolView {
        character: ' ',
        foreground: Color::Rgb(0, 0, 0),
        background: Color::Rgb(0, 0, 0),
        modifiers: Seq::empty(),
    }
}

impl Default for CanvasSymbol {
    fn default() -> (r: CanvasSymbol)
        ensures
            r@ == default_symbol(),
    {
        let r = CanvasSymbol {
            character: ' ',
            foreground: Color::Rgb(0, 0, 0),
            background: Color::Rgb(0, 0, 0),
            modifiers: Vec::new(),
        };
        proof {
            assert(r@ =~= default_symbol());
        }
        r
    }
}

/// Canvas used to build the styled text for the portion of the map on camera.
/// A rectangular grid of symbols indexed `[x][y]`; `x` indexes the lines.
pub struct TextCanvas {
    pub symbols: Vec<Vec<CanvasSymbol>>,
}

impl TextCanvas {
    /// The grid is rectangular and its dimensions fit in `i32`.
    pub open spec fn well_formed(&self) -> bool {
        &&& forall|i: int|
            0 <= i < self.symbols@.len() ==> (#[trigger] self.symbols@[i])@.len()
                == self.symbols@[0]@.len()
        &&& self.symbols@.len() <= i32::MAX
        &&& self.symbols@.len() > 0 ==> self.symbols@[0]@.len() <= i32::MAX
    }

    pub open spec fn spec_width(&self) -> nat {
        self.symbols@.len()
    }

    pub open spec fn spec_height(&self) -> nat {
        if self.symbols@.len() > 0 {
            self.symbols@[0]@.len()
        } else {
            0
        }
    }

    pub open spec fn spec_symbol(&self, x: int, y: int) -> SymbolView {
        self.symbols@[x]@[y]@
    }

    pub open spec fn spec_in_bounds(&self, x: int, y: int) -> bool {
        0 <= x < self.spec_width() && 0 <= y < self.spec_height()
    }

    /// The two canvases have the same dimensions and agree on every cell but
    /// `(x, y)`.
    pub open spec fn same_except(pre: TextCanvas, post: TextCanvas, x: int, y: int) -> bool {
        &&& post.spec_width() == pre.spec_width()
        &&& post.spec_height() == pre.spec_height()
        &&& forall|i: int, j: int|
            0 <= i < pre.spec_width() && 0 <= j < pre.spec_height() && !(i == x && j == y)
                ==> #[trigger] post.spec_symbol(i, j) == pre.spec_symbol(i, j)
    }

    /// Returns a canvas of default symbols of size `width` by `height`.
    pub fn with_size(width: usize, height: usize) -> (r: TextCanvas)
        requires
            width <= i32::MAX,
            height <= i32::MAX,
        ensures
            r.well_formed(),
            r.spec_width() == width,
            width > 0 ==> r.spec_height() == height,
            forall|i: int, j: int|
                0 <= i < width && 0 <= j < height ==> #[trigger] r.spec_symbol(i, j)
                    == default_symbol(),
    {
        let mut symbols: Vec<Vec<CanvasSymbol>> = Vec::new();
        let mut x: usize = 0;
        while x < width
            invariant
                x <= width,
                height <= i32::MAX,
                symbols@.len() == x,
                forall|i: int| 0 <= i < x ==> (#[trigger] symbols@[i])@.len() == height,
                forall|i: int, j: int|
                    0 <= i < x && 0 <= j < height ==> #[trigger] symbols@[i]@[j]@
                        == default_symbol(),
            decreases width - x,
        {
            let mut row: Vec<CanvasSymbol> = Vec::new();
            let mut y: usize = 0;
            while y < height
                invariant
                    y <= height,
                    row@.len() == y,
                    forall|j: int| 0 <= j < y ==> (#[trigger] row@[j])@ == default_symbol(),
                decreases height - y,
            {
                row.push(CanvasSymbol::default());
                y = y + 1;
            }
            symbols.push(row);
            x = x + 1;
        }
        TextCanvas { symbols }
    }

    /// Returns a canvas of default symbols with the same dimensions as `map`.
    pub fn for_map(map: &TileMap) -> (r: TextCanvas)
        requires
            map.well_formed(),
        ensures
            r.well_formed(),
            r.spec_width() == map.spec_width(),
            map.spec_width() > 0 ==> r.spec_height() == map.spec_height(),
            forall|i: int, j: int|
                0 <= i < r.spec_width() && 0 <= j < r.spec_height() ==> #[trigger] r.spec_symbol(
                    i,
                    j,
                ) == default_symbol(),
    {
        let (map_width, map_height) = map.dimensions();
        TextCanvas::with_size(map_width, map_height)
    }

    /// Returns `(width, height)` of the canvas.
    pub fn dimensions(&self) -> (r: (usize, usize))
        requires
            self.well_formed(),
        ensures
            r.0 == self.spec_width(),
            r.1 == self.spec_height(),
    {
        if self.symbols.len() > 0 {
            (self.symbols.len(), self.symbols[0].len())
        } else {
            (0, 0)
        }
    }

    /// Returns `true` if `(x, y)` is in bounds of the canvas.
    pub fn in_bounds(&self, x: i32, y: i32) -> (r: bool)
        requires
            self.well_formed(),
        ensures
            r == self.spec_in_bounds(x as int, y as int),
    {
        if self.symbols.len() > 0 {
            let width = conversions::as_i32(self.symbols.len());
            let height = conversions::as_i32(self.symbols[0].len());
            (x >= 0 && x < width) && (y >= 0 && y < height)
        } else {
            false
        }
    }

    /// Replaces the symbol at `(x, y)`.
    pub fn set_symbol(&mut self, x: usize, y: usize, symbol: CanvasSymbol)
        requires
            old(self).well_formed(),
            old(self).spec_in_bounds(x as int, y as int),
        ensures
            final(self).well_formed(),
            TextCanvas::same_except(*old(self), *final(self), x as int, y as int),
            final(self).spec_symbol(x as int, y as int) == symbol@,
    {
        let row = vstd::std_specs::vec::vec_index_mut(&mut self.symbols, x);
        row.set(y, symbol);
    }

    /// Changes only the character of the symbol at `(x, y)`.
    pub fn set_character(&mut self, x: usize, y: usize, character: char)
        requires
            old(self).well_formed(),
            old(self).spec_in_bounds(x as int, y as int),
        ensures
            final(self).well_formed(),
            TextCanvas::same_except(*old(self), *final(self), x as int, y as int),
            final(self).spec_symbol(x as int, y as int) == (SymbolView {
                character,
                ..old(self).spec_symbol(x as int, y as int)
            }),
    {
        let row = vstd::std_specs::vec::vec_index_mut(&mut self.symbols, x);
        let sym = vstd::std_specs::vec::vec_index_mut(row, y);
        sym.character = character;
    }

    /// Appends a style modifier to the symbol at `(x, y)`.
    pub fn add_modifier(&mut self, x: usize, y: usize, modifier: Modifier)
        requires
            old(self).well_formed(),
            old(self).spec_in_bounds(x as int, y as int),
        ensures
            final(self).well_formed(),
            TextCanvas::same_except(*old(self), *final(self), x as int, y as int),
            final(self).spec_symbol(x as int, y as int) == (SymbolView {
                modifiers: old(self).spec_symbol(x as int, y as int).modifiers.push(modifier),
                ..old(self).spec_symbol(x as int, y as int)
            }),
    {
        let row = vstd::std_specs::vec::vec_index_mut(&mut self.symbols, x);
        let sym = vstd::std_specs::vec::vec_index_mut(row, y);
        sym.modifiers.push(modifier);
    }

    /// Removes all style modifiers of the symbol at `(x, y)`.
    pub fn clear_modifiers(&mut self, x: usize, y: usize)
        requires
            old(self).well_formed(),
            old(self).spec_in_bounds(x as int, y as int),
        ensures
            final(self).well_formed(),
            TextCanvas::same_except(*old(self), *final(self), x as int, y as int),
            final(self).spec_symbol(x as int, y as int) == (SymbolView {
                modifiers: Seq::empty(),
                ..old(self).spec_symbol(x as int, y as int)
            }),
    {
        let row = vstd::std_specs::vec::vec_index_mut(&mut self.symbols, x);
        let sym = vstd::std_specs::vec::vec_index_mut(row, y);
        sym.modifiers = Vec::new();
    }

    /// Changes only the foreground color of the symbol at `(x, y)`.
    pub fn set_fg_color(&mut self, x: usize, y: usize, color: Color)
        requires
            old(self).well_formed(),
            old(self).spec_in_bounds(x as int, y as int),
        ensures
            final(self).well_formed(),
            TextCanvas::same_except(*old(self), *final(self), x as int, y as int),
            final(self).spec_symbol(x as int, y as int) == (SymbolView {
                foreground: color,
                ..old(self).spec_symbol(x as int, y as int)
            }),
    {
        let row = vstd::std_specs::vec::vec_index_mut(&mut self.symbols, x);
        let sym = vstd::std_specs::vec::vec_index_mut(row, y);
        sym.foreground = color;
    }

    /// Changes only the background color of the symbol at `(x, y)`.
    pub fn set_bg_color(&mut self, x: usize, y: usize, color: Color)
        requires
            old(self).well_formed(),
            old(self).spec_in_bounds(x as int, y as int),
        ensures
            final(self).well_formed(),
            TextCanvas::same_except(*old(self), *final(self), x as int, y as int),
            final(self).spec_symbol(x as int, y as int) == (SymbolView {
                background: color,
                ..old(self).spec_symbol(x as int, y as int)
            }),
    {
        let row = vstd::std_specs::vec::vec_index_mut(&mut self.symbols, x);
        let sym = vstd::std_specs::vec::vec_index_mut(row, y);
        sym.background = color;
    }

    /// Alters the foreground color at `(x, y)` by blending `color` over it
    /// with opacity `alpha_num / alpha_den`.
    pub fn apply_fg_color(&mut self, x: usize, y: usize, color: Color, alpha_num: u32, alpha_den: u32)
        requires
            old(self).well_formed(),
            old(self).spec_in_bounds(x as int, y as int),
            color::has_rgb(old(self).spec_symbol(x as int, y as int).foreground),
            color::has_rgb(color),
            alpha_den > 0,
        ensures
            final(self).well_formed(),
            TextCanvas::same_except(*old(self), *final(self), x as int, y as int),
            final(self).spec_symbol(x as int, y as int) == (SymbolView {
                foreground: color::spec_blend(
                    old(self).spec_symbol(x as int, y as int).foreground,
                    color,
                    alpha_num as int,
                    alpha_den as int,
                ),
                ..old(self).spec_symbol(x as int, y as int)
            }),
    {
        let base_color = self.symbols[x][y].foreground;
        let blended = color::blend(base_color, color, alpha_num, alpha_den);
        self.set_fg_color(x, y, blended);
    }

    /// Alters the background color at `(x, y)` by blending `color` over it
    /// with opacity `alpha_num / alpha_den`.
    pub fn apply_bg_color(&mut self, x: usize, y: usize, color: Color, alpha_num: u32, alpha_den: u32)
        requires
            old(self).well_formed(),
            old(self).spec_in_bounds(x as int, y as int),
            color::has_rgb(old(self).spec_symbol(x as int, y as int).background),
            color::has_rgb(color),
            alpha_den > 0,
        ensures
            final(self).well_formed(),
            TextCanvas::same_except(*old(self), *final(self), x as int, y as int),
            final(self).spec_symbol(x as int, y as int) == (SymbolView {
                background: color::spec_blend(
                    old(self).spec_symbol(x as int, y as int).background,
                    color,
                    alpha_num as int,
                    alpha_den as int,
                ),
                ..old(self).spec_symbol(x as int, y as int)
            }),
    {
        let base_color = self.symbols[x][y].background;
        let blended = color::blend(base_color, color, alpha_num, alpha_den);
        self.set_bg_color(x, y, blended);
    }
}

impl Default for TextCanvas {
    /// The empty canvas: zero width and height.
    fn default() -> (r: TextCanvas)
        ensures
            r.well_formed(),
            r.spec_width() == 0,
    {
        TextCanvas { symbols: Vec::new() }
    }
}

} // verus!
