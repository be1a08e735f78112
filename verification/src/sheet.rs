//! The sprite atlas and the geometry of its animations. An atlas maps cell
//! names to rectangles of one image; a sprite sheet derives from it, for
//! each animation, where each picture is drawn relative to the first one
//! and how large its trimmed box is, so that pictures of different trimmed
//! sizes still line up.

use vstd::prelude::*;
use vstd::hash_map::StringHashMap;
use crate::geometry::{Dimen, Point, Rect};
use crate::naming::{frame_cell, frame_cell_name};

verus! {

/// A rectangle of the atlas image, in pixels.
#[derive(Debug, Clone, Copy, PartialEq, Eq, Structural)]
pub struct SheetRect {
    pub x: u16,
    pub y: u16,
    pub w: u16,
    pub h: u16,
}

/// One cell of the atlas: where the picture lies in the image, and the box
/// that was left of the picture after its transparent border was trimmed.
#[derive(Debug, Clone, Copy, PartialEq, Eq, Structural)]
pub struct Cell {
    pub frame: SheetRect,
    pub sprite_source_size: SheetRect,
}

/// A draw was asked for of a cell that the atlas does not have.
#[derive(Debug, PartialEq, Eq)]
pub struct LookupError {
    /// The name of the missing cell.
    pub cell: String,
}

/// What to draw where: a rectangle of the atlas image and the rectangle of
/// the screen that it goes to.
#[derive(Debug, Clone, Copy, PartialEq, Eq, Structural)]
pub struct Blit {
    pub source: Rect,
    pub destination: Rect,
}

/// The difference `to - from` as a 16-bit coordinate, wrapping around at the
/// ends of the 16-bit range.
pub open spec fn wrapped_difference(to: u16, from: u16) -> i16 {
    if to - from > i16::MAX {
        (to - from - 0x1_0000) as i16
    } else if to - from < i16::MIN {
        (to - from + 0x1_0000) as i16
    } else {
        (to - from) as i16
    }
}

/// Where a picture is drawn relative to the first picture of its animation:
/// by as much as the origins of their trimmed boxes differ.
pub open spec fn offset_between(first: Cell, cell: Cell) -> Point {
    Point {
        x: wrapped_difference(cell.sprite_source_size.x, first.sprite_source_size.x),
        y: wrapped_difference(cell.sprite_source_size.y, first.sprite_source_size.y),
    }
}

/// The size of a picture's trimmed box.
pub open spec fn trimmed_size(cell: Cell) -> Dimen {
    Dimen { width: cell.sprite_source_size.w, height: cell.sprite_source_size.h }
}

/// Whether `offsets` and `sizes` are the geometry of `animation` in `atlas`:
/// one entry for each picture from the first up to the last before the first
/// missing number, each taken from that picture's cell.
pub open spec fn describes(
    atlas: Map<Seq<char>, Cell>,
    animation: Seq<char>,
    offsets: Seq<Point>,
    sizes: Seq<Dimen>,
) -> bool {
    &&& offsets.len() == sizes.len()
    &&& offsets.len() >= 1
    &&& forall|i: int|
        0 <= i < offsets.len() ==> {
            &&& atlas.contains_key(#[trigger] frame_cell(animation, i + 1))
            &&& offsets[i] == offset_between(
                atlas[frame_cell(animation, 1)],
                atlas[frame_cell(animation, i + 1)],
            )
            &&& sizes[i] == trimmed_size(atlas[frame_cell(animation, i + 1)])
        }
    &&& !atlas.contains_key(frame_cell(animation, offsets.len() as int + 1))
}

fn coordinate_difference(to: u16, from: u16) -> (difference: i16)
    ensures
        difference == wrapped_difference(to, from),
{
    let exact: i32 = to as i32 - from as i32;
    if exact > 32767 {
        (exact - 65536) as i16
    } else if exact < -32768 {
        (exact + 65536) as i16
    } else {
        exact as i16
    }
}

fn offset_of(first: &Cell, cell: &Cell) -> (offset: Point)
    ensures
        offset == offset_between(*first, *cell),
{
    Point {
        x: coordinate_difference(cell.sprite_source_size.x, first.sprite_source_size.x),
        y: coordinate_difference(cell.sprite_source_size.y, first.sprite_source_size.y),
    }
}

/// A sprite atlas: the cells of one image, by name.
pub struct Sheet {
    frames: StringHashMap<Cell>,
}

impl View for Sheet {
    type V = Map<Seq<char>, Cell>;

    closed spec fn view(&self) -> Map<Seq<char>, Cell> {
        self.frames@
    }
}

impl Sheet {
    /// An atlas without cells.
    pub fn new() -> (sheet: Sheet)
        ensures
            sheet@ == Map::<Seq<char>, Cell>::empty(),
    {
        Sheet { frames: StringHashMap::new() }
    }

    /// Adds a cell under `name`, in place of any cell that had the name before.
    pub fn insert(&mut self, name: String, cell: Cell)
        ensures
            final(self)@ == old(self)@.insert(name@, cell),
    {
        self.frames.insert(name, cell);
    }

    /// The cell called `name`, if the atlas has one.
    pub fn get(&self, name: &str) -> (found: Option<Cell>)
        ensures
            found == if self@.contains_key(name@) {
                Some(self@[name@])
            } else {
                None
            },
    {
        match self.frames.get(name) {
            Some(cell) => Some(*cell),
            None => None,
        }
    }
}

/// An atlas together with the geometry of its animations.
pub struct SpriteSheet {
    sheet: Sheet,
    adjustments: StringHashMap<Vec<Point>>,
    dimensions: StringHashMap<Vec<Dimen>>,
}

impl SpriteSheet {
    /// The atlas.
    pub closed spec fn atlas(&self) -> Map<Seq<char>, Cell> {
        self.sheet@
    }

    /// For each animation that the sheet knows, the offset of each of its
    /// pictures from the first.
    pub closed spec fn offsets(&self) -> Map<Seq<char>, Seq<Point>> {
        Map::new(
            |animation: Seq<char>| self.adjustments@.contains_key(animation),
            |animation: Seq<char>| self.adjustments@[animation]@,
        )
    }

    /// For each animation that the sheet knows, the trimmed size of each of
    /// its pictures.
    pub closed spec fn sizes(&self) -> Map<Seq<char>, Seq<Dimen>> {
        Map::new(
            |animation: Seq<char>| self.dimensions@.contains_key(animation),
            |animation: Seq<char>| self.dimensions@[animation]@,
        )
    }

    /// The offset that picture `frame` of `animation` is drawn at, which is
    /// none where the sheet does not know the animation or the picture.
    pub open spec fn offset_at(&self, animation: Seq<char>, frame: int) -> Point {
        if self.offsets().contains_key(animation) && 0 <= frame < self.offsets()[animation].len() {
            self.offsets()[animation][frame]
        } else {
            Point { x: 0, y: 0 }
        }
    }

    /// The trimmed size of picture `frame` of `animation`, which is empty
    /// where the sheet does not know the animation or the picture.
    pub open spec fn size_at(&self, animation: Seq<char>, frame: int) -> Dimen {
        if self.sizes().contains_key(animation) && 0 <= frame < self.sizes()[animation].len() {
            self.sizes()[animation][frame]
        } else {
            Dimen { width: 0, height: 0 }
        }
    }

    /// The box of picture `frame` of `animation` relative to the position
    /// that the animation is drawn at.
    pub open spec fn box_at(&self, animation: Seq<char>, frame: int) -> Rect {
        Rect {
            x: self.offset_at(animation, frame).x as i32,
            y: self.offset_at(animation, frame).y as i32,
            width: self.size_at(animation, frame).width as i32,
            height: self.size_at(animation, frame).height as i32,
        }
    }

    /// What drawing picture `frame` of `animation` at `position` comes to,
    /// given the picture's cell: the cell's rectangle of the image goes, in
    /// its own size, to the position moved by the picture's offset.
    pub open spec fn blit_at(&self, cell: Cell, animation: Seq<char>, frame: int, position: Point)
        -> Blit {
        Blit {
            source: Rect {
                x: cell.frame.x as i32,
                y: cell.frame.y as i32,
                width: cell.frame.w as i32,
                height: cell.frame.h as i32,
            },
            destination: Rect {
                x: (position.x + self.offset_at(animation, frame).x) as i32,
                y: (position.y + self.offset_at(animation, frame).y) as i32,
                width: cell.frame.w as i32,
                height: cell.frame.h as i32,
            },
        }
    }

    /// Derives the geometry of the named animations from the atlas.
    ///
    /// The sheet knows exactly those of the names whose first picture the
    /// atlas has. The pictures of an animation are those numbered from 1 up
    /// to the last before the first missing number.
    pub fn new(sheet: Sheet, animations: Vec<String>) -> (sprites: SpriteSheet)
        ensures
            sprites.atlas() == sheet@,
            sprites.offsets().dom() == sprites.sizes().dom(),
            forall|animation: Seq<char>| #[trigger]
                sprites.offsets().contains_key(animation) <==> {
                    &&& sheet@.contains_key(frame_cell(animation, 1))
                    &&& exists|i: int|
                        0 <= i < animations.len() && (#[trigger] animations[i])@ == animation
                },
            forall|animation: Seq<char>| #[trigger]
                sprites.offsets().contains_key(animation) ==> describes(
                    sheet@,
                    animation,
                    sprites.offsets()[animation],
                    sprites.sizes()[animation],
                ),
    {
        let mut adjustments: StringHashMap<Vec<Point>> = StringHashMap::new();
        let mut dimensions: StringHashMap<Vec<Dimen>> = StringHashMap::new();
        let mut done: usize = 0;
        while done < animations.len()
            invariant
                done <= animations.len(),
                adjustments@.dom() == dimensions@.dom(),
                forall|animation: Seq<char>| #[trigger]
                    adjustments@.contains_key(animation) <==> {
                        &&& sheet@.contains_key(frame_cell(animation, 1))
                        &&& exists|i: int| 0 <= i < done && (#[trigger] animations[i])@ == animation
                    },
                forall|animation: Seq<char>| #[trigger]
                    adjustments@.contains_key(animation) ==> describes(
                        sheet@,
                        animation,
                        adjustments@[animation]@,
                        dimensions@[animation]@,
                    ),
            decreases animations.len() - done,
        {
            let animation = &animations[done];
            let ghost name = animation@;
            let first_name = frame_cell_name(animation.as_str(), 1);
            if let Some(first_frame) = sheet.get(first_name.as_str()) {
                let mut adjustments_vec: Vec<Point> = Vec::new();
                let mut dimensions_vec: Vec<Dimen> = Vec::new();
                adjustments_vec.push(Point { x: 0, y: 0 });
                dimensions_vec.push(
                    Dimen {
                        width: first_frame.sprite_source_size.w,
                        height: first_frame.sprite_source_size.h,
                    },
                );
                loop
                    invariant_except_break
                        1 <= adjustments_vec.len() == dimensions_vec.len(),
                        sheet@.contains_key(frame_cell(name, 1)),
                        first_frame == sheet@[frame_cell(name, 1)],
                        forall|i: int|
                            0 <= i < adjustments_vec.len() ==> {
                                &&& sheet@.contains_key(#[trigger] frame_cell(name, i + 1))
                                &&& adjustments_vec[i] == offset_between(
                                    first_frame,
                                    sheet@[frame_cell(name, i + 1)],
                                )
                                &&& dimensions_vec[i] == trimmed_size(
                                    sheet@[frame_cell(name, i + 1)],
                                )
                            },
                    invariant
                        name == animation@,
                    ensures
                        describes(sheet@, name, adjustments_vec@, dimensions_vec@),
                    decreases usize::MAX - adjustments_vec.len(),
                {
                    let frame_index: i128 = adjustments_vec.len() as i128 + 1;
                    let frame_name = frame_cell_name(animation.as_str(), frame_index);
                    match sheet.get(frame_name.as_str()) {
                        Some(frame) => {
                            adjustments_vec.push(offset_of(&first_frame, &frame));
                            dimensions_vec.push(
                                Dimen {
                                    width: frame.sprite_source_size.w,
                                    height: frame.sprite_source_size.h,
                                },
                            );
                        },
                        None => {
                            break ;
                        },
                    }
                }
                adjustments.insert(animation.clone(), adjustments_vec);
                dimensions.insert(animation.clone(), dimensions_vec);
            }
            done += 1;
        }
        SpriteSheet { sheet, adjustments, dimensions }
    }

    /// The cell called `name`, if the atlas has one.
    pub fn cell(&self, name: &str) -> (found: Option<Cell>)
        ensures
            found == if self.atlas().contains_key(name@) {
                Some(self.atlas()[name@])
            } else {
                None
            },
    {
        self.sheet.get(name)
    }

    /// Whether the sheet knows `animation`: it was named when the sheet was
    /// made, and the atlas has its first picture.
    pub fn knows(&self, animation: &str) -> (known: bool)
        ensures
            known == self.offsets().contains_key(animation@),
    {
        self.adjustments.contains_key(animation)
    }

    /// The offset that picture `frame` of `animation` is drawn at.
    pub fn adjustment(&self, animation: &str, frame: i16) -> (offset: Point)
        ensures
            offset == self.offset_at(animation@, frame as int),
    {
        if frame < 0 {
            return Point { x: 0, y: 0 };
        }
        match self.adjustments.get(animation) {
            Some(offsets) => {
                if (frame as usize) < offsets.len() {
                    offsets[frame as usize]
                } else {
                    Point { x: 0, y: 0 }
                }
            },
            None => Point { x: 0, y: 0 },
        }
    }

    /// The trimmed size of picture `frame` of `animation`.
    pub fn dimension(&self, animation: &str, frame: i16) -> (size: Dimen)
        ensures
            size == self.size_at(animation@, frame as int),
    {
        if frame < 0 {
            return Dimen { width: 0, height: 0 };
        }
        match self.dimensions.get(animation) {
            Some(sizes) => {
                if (frame as usize) < sizes.len() {
                    sizes[frame as usize]
                } else {
                    Dimen { width: 0, height: 0 }
                }
            },
            None => Dimen { width: 0, height: 0 },
        }
    }

    /// Works out the drawing of picture `frame` of `animation` at
    /// `position`. The picture is that of the atlas cell numbered
    /// `frame + 1`; the draw fails exactly where the atlas has no such cell.
    pub fn draw(&self, animation: &str, frame: i16, position: &Point) -> (drawn: Result<
        Blit,
        LookupError,
    >)
        ensures
            match drawn {
                Ok(blit) => {
                    &&& self.atlas().contains_key(frame_cell(animation@, frame + 1))
                    &&& blit == self.blit_at(
                        self.atlas()[frame_cell(animation@, frame + 1)],
                        animation@,
                        frame as int,
                        *position,
                    )
                },
                Err(error) => {
                    &&& !self.atlas().contains_key(frame_cell(animation@, frame + 1))
                    &&& error.cell@ == frame_cell(animation@, frame + 1)
                },
            },
    {
        let cell = frame_cell_name(animation, frame as i128 + 1);
        match self.sheet.get(cell.as_str()) {
            Some(sprite) => {
                let adjustment = self.adjustment(animation, frame);
                Ok(
                    Blit {
                        source: Rect {
                            x: sprite.frame.x as i32,
                            y: sprite.frame.y as i32,
                            width: sprite.frame.w as i32,
                            height: sprite.frame.h as i32,
                        },
                        destination: Rect {
                            x: position.x as i32 + adjustment.x as i32,
                            y: position.y as i32 + adjustment.y as i32,
                            width: sprite.frame.w as i32,
                            height: sprite.frame.h as i32,
                        },
                    },
                )
            },
            None => Err(LookupError { cell }),
        }
    }

    /// The box of picture `frame` of `animation`, relative to the position
    /// that the animation is drawn at: anchored at the picture's offset and
    /// as large as its trimmed size.
    pub fn bounding_box_for(&self, animation: &str, frame: i16) -> (bounds: Rect)
        ensures
            bounds == self.box_at(animation@, frame as int),
    {
        let offset = self.adjustment(animation, frame);
        let size = self.dimension(animation, frame);
        Rect {
            x: offset.x as i32,
            y: offset.y as i32,
            width: size.width as i32,
            height: size.height as i32,
        }
    }
}

/// The first picture of an animation is drawn where the animation is
/// drawn: its offset is none.
pub proof fn lemma_first_picture_has_no_offset(
    atlas: Map<Seq<char>, Cell>,
    animation: Seq<char>,
    offsets: Seq<Point>,
    sizes: Seq<Dimen>,
)
    requires
        describes(atlas, animation, offsets, sizes),
    ensures
        offsets[0] == (Point { x: 0, y: 0 }),
{
    assert(atlas.contains_key(frame_cell(animation, 0int + 1)));
}

/// An atlas gives an animation one geometry and no other.
pub proof fn lemma_geometry_is_unique(
    atlas: Map<Seq<char>, Cell>,
    animation: Seq<char>,
    offsets: Seq<Point>,
    sizes: Seq<Dimen>,
    other_offsets: Seq<Point>,
    other_sizes: Seq<Dimen>,
)
    requires
        describes(atlas, animation, offsets, sizes),
        describes(atlas, animation, other_offsets, other_sizes),
    ensures
        offsets == other_offsets,
        sizes == other_sizes,
{
    if offsets.len() < other_offsets.len() {
        assert(atlas.contains_key(frame_cell(animation, offsets.len() as int + 1)));
    }
    if other_offsets.len() < offsets.len() {
        assert(atlas.contains_key(frame_cell(animation, other_offsets.len() as int + 1)));
    }
    assert forall|i: int| 0 <= i < offsets.len() implies offsets[i] == other_offsets[i] && sizes[i]
        == other_sizes[i] by {
        assert(atlas.contains_key(frame_cell(animation, i + 1)));
    }
    assert(offsets =~= other_offsets);
    assert(sizes =~= other_sizes);
}

} // verus!
