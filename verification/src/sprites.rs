//! The frames of the game's sprites: which files they come from, and how the
//! loaded textures are sorted back to the objects that they belong to.

use crate::images::take_last;
use macroquad::texture::Texture2D;
use vstd::prelude::*;

verus! {

/// One animation frame of a sprite: its name and the file that holds it.
#[derive(Debug)]
pub struct FramePath {
    pub name: String,
    pub path: String,
}

/// A [`FramePath`] as plain values.
pub ghost struct FramePathView {
    pub name: Seq<char>,
    pub path: Seq<char>,
}

impl View for FramePath {
    type V = FramePathView;

    open spec fn view(&self) -> FramePathView {
        FramePathView { name: self.name@, path: self.path@ }
    }
}

/// The frames of one kind of object, in the order in which they are loaded.
#[derive(Debug)]
pub struct SpriteFrames {
    pub frames: Vec<FramePath>,
}

impl View for SpriteFrames {
    type V = Seq<FramePathView>;

    open spec fn view(&self) -> Seq<FramePathView> {
        self.frames@.map_values(|frame: FramePath| frame@)
    }
}

/// The frames of every kind of object: one entry per kind, in loading order.
pub type SpriteTable = Seq<Seq<FramePathView>>;

/// A list of [`SpriteFrames`] as a [`SpriteTable`].
pub open spec fn table_of(sprites: Seq<SpriteFrames>) -> SpriteTable {
    sprites.map_values(|object: SpriteFrames| object@)
}

/// The table's objects, and the frames of each, can be counted in a `usize`,
/// as those of every table that was built from vectors can.
pub open spec fn table_fits(table: SpriteTable) -> bool {
    &&& table.len() <= usize::MAX
    &&& forall|object: int|
        0 <= object < table.len() ==> (#[trigger] table[object]).len() <= usize::MAX
}

/// Every table that was built from vectors fits.
pub proof fn lemma_table_of_fits(sprites: Vec<SpriteFrames>)
    ensures
        table_fits(table_of(sprites@)),
{
    let table = table_of(sprites@);
    assert(sprites.len() == sprites@.len());
    assert forall|object: int| 0 <= object < table.len() implies (#[trigger] table[object]).len()
        <= usize::MAX by {
        let frames = sprites@[object].frames;
        assert(frames.len() == frames@.len());
    }
}

/// Number of frames that the table lists from an object on.
pub open spec fn frames_from(table: SpriteTable, object: nat) -> nat
    decreases table.len() - object,
{
    if object >= table.len() {
        0
    } else {
        table[object as int].len() + frames_from(table, object + 1)
    }
}

/// Position of a frame among all frames of the table, in loading order:
/// the frames of the objects before it, then the frames before it of its own
/// object.
pub open spec fn frame_position(table: SpriteTable, object: int, frame: int) -> int {
    frames_from(table, 0) - frames_from(table, object as nat) + frame
}

/// A loaded frame of a sprite: its name and its texture.
#[derive(Debug)]
pub struct FrameTexture {
    pub name: String,
    pub texture: Texture2D,
}

/// `groups` holds, object by object and frame by frame as the table lists
/// them, each frame's name and the texture at the frame's position in
/// `textures`.
pub open spec fn grouped(
    table: SpriteTable,
    textures: Seq<Texture2D>,
    groups: Seq<Vec<FrameTexture>>,
) -> bool {
    &&& groups.len() == table.len()
    &&& forall|object: int|
        0 <= object < table.len() ==> (#[trigger] groups[object])@.len() == table[object].len()
    &&& forall|object: int, frame: int|
        0 <= object < table.len() && 0 <= frame < table[object].len() ==> {
            &&& (#[trigger] groups[object]@[frame]).name@ == table[object][frame].name
            &&& groups[object]@[frame].texture == textures[frame_position(table, object, frame)]
        }
}

/// Number of frames in the whole table; `None` where a `usize` cannot hold
/// it.
pub fn count_frames(sprites: &Vec<SpriteFrames>) -> (total: Option<usize>)
    ensures
        match total {
            Some(n) => n == frames_from(table_of(sprites@), 0),
            None => frames_from(table_of(sprites@), 0) > usize::MAX,
        },
{
    let ghost table = table_of(sprites@);
    let mut total: usize = 0;
    let mut object: usize = 0;
    while object < sprites.len()
        invariant
            table == table_of(sprites@),
            object <= sprites.len(),
            total == frames_from(table, 0) - frames_from(table, object as nat),
        decreases sprites.len() - object,
    {
        let count: usize = sprites[object].frames.len();
        assert(frames_from(table, object as nat) == count + frames_from(
            table,
            object as nat + 1,
        ));
        if count > usize::MAX - total {
            return None;
        }
        total += count;
        object += 1;
    }
    Some(total)
}

/// The same textures, last first.
fn reversed(textures: Vec<Texture2D>) -> (turned: Vec<Texture2D>)
    ensures
        turned@.len() == textures@.len(),
        forall|i: int|
            0 <= i < turned@.len() ==> #[trigger] turned@[i] == textures@[textures@.len() - 1 - i],
{
    let mut rest = textures;
    let mut turned: Vec<Texture2D> = Vec::new();
    while rest.len() > 0
        invariant
            rest@.len() + turned@.len() == textures@.len(),
            rest@ == textures@.subrange(0, rest@.len() as int),
            forall|i: int|
                0 <= i < turned@.len() ==> #[trigger] turned@[i] == textures@[textures@.len() - 1
                    - i],
        decreases rest@.len(),
    {
        let texture = take_last(&mut rest);
        turned.push(texture);
    }
    turned
}

/// Sorts the textures of all frames, given in loading order, back to their
/// objects: one list per object of the table, one named texture per frame.
/// Fails unless there is exactly one texture per frame.
pub fn group_frame_textures(sprites: &Vec<SpriteFrames>, textures: Vec<Texture2D>) -> (groups:
    Option<Vec<Vec<FrameTexture>>>)
    ensures
        groups.is_some() <==> textures@.len() == frames_from(table_of(sprites@), 0),
        groups.is_some() ==> grouped(table_of(sprites@), textures@, groups.unwrap()@),
{
    let given: usize = textures.len();
    match count_frames(sprites) {
        Some(total) => {
            if total != given {
                return None;
            }
        },
        None => {
            return None;
        },
    }
    let ghost table = table_of(sprites@);
    let ghost all = textures@;
    let mut pending = reversed(textures);
    let mut groups: Vec<Vec<FrameTexture>> = Vec::new();
    let mut object: usize = 0;
    while object < sprites.len()
        invariant
            table == table_of(sprites@),
            all.len() == frames_from(table, 0),
            object <= sprites.len(),
            pending@.len() == frames_from(table, object as nat),
            forall|i: int| 0 <= i < pending@.len() ==> #[trigger] pending@[i] == all[all.len() - 1 - i],
            groups@.len() == object,
            forall|o: int| 0 <= o < object ==> (#[trigger] groups@[o])@.len() == table[o].len(),
            forall|o: int, f: int|
                0 <= o < object && 0 <= f < table[o].len() ==> {
                    &&& (#[trigger] groups@[o]@[f]).name@ == table[o][f].name
                    &&& groups@[o]@[f].texture == all[frame_position(table, o, f)]
                },
        decreases sprites.len() - object,
    {
        let count: usize = sprites[object].frames.len();
        assert(frames_from(table, object as nat) == count + frames_from(
            table,
            object as nat + 1,
        ));
        let mut group: Vec<FrameTexture> = Vec::new();
        let mut frame: usize = 0;
        while frame < count
            invariant
                table == table_of(sprites@),
                all.len() == frames_from(table, 0),
                object < sprites.len(),
                count == table[object as int].len(),
                frames_from(table, object as nat) == count + frames_from(table, object as nat + 1),
                frame <= count,
                pending@.len() == frames_from(table, object as nat) - frame,
                forall|i: int|
                    0 <= i < pending@.len() ==> #[trigger] pending@[i] == all[all.len() - 1 - i],
                group@.len() == frame,
                forall|f: int|
                    0 <= f < frame ==> {
                        &&& (#[trigger] group@[f]).name@ == table[object as int][f].name
                        &&& group@[f].texture == all[frame_position(table, object as int, f)]
                    },
            decreases count - frame,
        {
            let texture = take_last(&mut pending);
            let name = sprites[object].frames[frame].name.clone();
            group.push(FrameTexture { name, texture });
            frame += 1;
        }
        groups.push(group);
        object += 1;
    }
    Some(groups)
}

} // verus!
