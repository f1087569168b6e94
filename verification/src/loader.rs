//! The order in which the game's assets are loaded.
//!
//! Loading alternates between work that only the outside world can do (read a
//! file, upload a texture) and decisions about what to load next. The
//! decisions live here: a [`Loader`] says what it wants next
//! ([`Loader::request`]), the caller does it and reports the outcome
//! ([`Loader::advance`]).

use crate::ability::{Ability, ABILITY_COUNT};
use crate::images::{image_path, spec_image_path, AbilityIcons, Images, IMAGE_COUNT};
use crate::sprites::{
    frame_position, frames_from, group_frame_textures, grouped, lemma_table_of_fits, table_fits,
    table_of, FramePathView, FrameTexture, SpriteFrames, SpriteTable,
};
use macroquad::texture::Texture2D;
use vstd::prelude::*;
use vstd::string::*;

verus! {

/// What is being loaded.
#[derive(Clone, Copy, Debug, PartialEq, Eq, Structural)]
pub enum Stage {
    /// The icon of the ability at this position.
    AbilityIcon(usize),
    /// The image in this slot.
    Image(usize),
    /// The font.
    Font,
    /// The description of all sprites; its outcome is the sprite table.
    SpritesInfo,
    /// A frame of a sprite: the object's position in the sprite table, then
    /// the frame's position among the object's frames.
    SpriteFrame(usize, usize),
    /// The object prototypes.
    Prototypes,
    /// The demo scenario.
    DemoScenario,
    /// The campaign plan.
    CampaignPlan,
    /// What the campaign says of each agent.
    AgentCampaignInfo,
    /// Everything has been loaded.
    Done,
    /// Something could not be loaded; nothing more is asked for.
    Failed,
}

/// What the caller is to do with the file of a [`Request`].
#[derive(Clone, Copy, Debug, PartialEq, Eq, Structural)]
pub enum RequestKind {
    /// Load it as a texture.
    Texture,
    /// Load it as a font.
    Font,
    /// Read it and parse it as a structured document.
    Document,
    /// Read it as text.
    Text,
}

/// A file to load, and as what.
#[derive(Debug)]
pub struct Request {
    pub kind: RequestKind,
    pub path: String,
}

/// The outcome of a [`Request`].
#[derive(Debug)]
pub enum Event {
    /// The file was loaded as a texture: this one.
    Texture(Texture2D),
    /// The file was loaded, and was no texture; the caller keeps what it
    /// held.
    Loaded,
    /// The description of all sprites was loaded and parsed, and lists these
    /// frames.
    SpritesParsed(Vec<SpriteFrames>),
    /// The file could not be read, or not be understood.
    Failed,
}

/// An [`Event`] as plain values.
pub ghost enum EventView {
    Texture(Texture2D),
    Loaded,
    SpritesParsed(SpriteTable),
    Failed,
}

impl View for Event {
    type V = EventView;

    open spec fn view(&self) -> EventView {
        match *self {
            Event::Texture(texture) => EventView::Texture(texture),
            Event::Loaded => EventView::Loaded,
            Event::SpritesParsed(sprites) => EventView::SpritesParsed(table_of(sprites@)),
            Event::Failed => EventView::Failed,
        }
    }
}

/// The file of the font.
pub open spec fn font_path() -> Seq<char> {
    "assets/OpenSans-Regular.ttf"@
}

/// The file that describes all sprites.
pub open spec fn sprites_info_path() -> Seq<char> {
    "assets/sprites.ron"@
}

/// The file of the object prototypes.
pub open spec fn prototypes_path() -> Seq<char> {
    "assets/objects.ron"@
}

/// The file of the demo scenario.
pub open spec fn demo_scenario_path() -> Seq<char> {
    "assets/scenario_01.ron"@
}

/// The file of the campaign plan.
pub open spec fn campaign_plan_path() -> Seq<char> {
    "assets/campaign_01.ron"@
}

/// The file that says what the campaign knows of each agent.
pub open spec fn agent_campaign_info_path() -> Seq<char> {
    "assets/agent_campaign_info.ron"@
}

/// A stage points at something that exists: an ability, an image slot, a
/// frame of the table.
pub open spec fn stage_wf(stage: Stage, table: SpriteTable) -> bool {
    match stage {
        Stage::AbilityIcon(i) => i < ABILITY_COUNT,
        Stage::Image(slot) => slot < IMAGE_COUNT,
        Stage::SpriteFrame(object, frame) => object < table.len() && frame < table[object as int].len(),
        _ => true,
    }
}

/// The stage of the first frame at or after an object of the table: objects
/// without frames are passed over, and after the last frame come the
/// prototypes.
pub open spec fn first_frame_from(table: SpriteTable, object: nat) -> Stage
    decreases table.len() - object,
{
    if object >= table.len() {
        Stage::Prototypes
    } else if table[object as int].len() > 0 {
        Stage::SpriteFrame(object as usize, 0)
    } else {
        first_frame_from(table, object + 1)
    }
}

/// The stage that follows once a stage's file has been loaded.
///
/// Ability icons come first, then the images, the font, the sprite
/// description, every frame that it lists, and the four game-data files.
pub open spec fn next_stage(stage: Stage, table: SpriteTable) -> Stage {
    match stage {
        Stage::AbilityIcon(i) => if i + 1 < ABILITY_COUNT {
            Stage::AbilityIcon((i + 1) as usize)
        } else {
            Stage::Image(0)
        },
        Stage::Image(slot) => if slot + 1 < IMAGE_COUNT {
            Stage::Image((slot + 1) as usize)
        } else {
            Stage::Font
        },
        Stage::Font => Stage::SpritesInfo,
        Stage::SpritesInfo => first_frame_from(table, 0),
        Stage::SpriteFrame(object, frame) => if frame + 1 < table[object as int].len() {
            Stage::SpriteFrame(object, (frame + 1) as usize)
        } else {
            first_frame_from(table, object as nat + 1)
        },
        Stage::Prototypes => Stage::DemoScenario,
        Stage::DemoScenario => Stage::CampaignPlan,
        Stage::CampaignPlan => Stage::AgentCampaignInfo,
        Stage::AgentCampaignInfo => Stage::Done,
        Stage::Done => Stage::Done,
        Stage::Failed => Stage::Failed,
    }
}

/// Where a loading stands: the stage, the sprite table (empty until the
/// sprite description has been parsed), and the textures received so far, each
/// list in the order of arrival.
pub ghost struct LoaderView {
    pub stage: Stage,
    pub table: SpriteTable,
    pub icons: Seq<Texture2D>,
    pub images: Seq<Texture2D>,
    pub frames: Seq<Texture2D>,
}

/// The state after an event.
///
/// `Done` and `Failed` are final. A failure ends the loading. An ability
/// icon, an image and a frame are answered by a texture, which is put at the
/// end of its list; the sprite description by the parsed table, which is
/// kept; everything else by `Loaded`. An answer of the wrong shape counts as
/// a failure. Nothing already received is lost, whatever happens.
pub open spec fn step(state: LoaderView, event: EventView) -> LoaderView {
    let next = next_stage(state.stage, state.table);
    let failed = LoaderView {
        stage: Stage::Failed,
        table: state.table,
        icons: state.icons,
        images: state.images,
        frames: state.frames,
    };
    match state.stage {
        Stage::Done | Stage::Failed => state,
        Stage::AbilityIcon(_) => match event {
            EventView::Texture(texture) => LoaderView {
                stage: next,
                table: state.table,
                icons: state.icons.push(texture),
                images: state.images,
                frames: state.frames,
            },
            _ => failed,
        },
        Stage::Image(_) => match event {
            EventView::Texture(texture) => LoaderView {
                stage: next,
                table: state.table,
                icons: state.icons,
                images: state.images.push(texture),
                frames: state.frames,
            },
            _ => failed,
        },
        Stage::SpriteFrame(_, _) => match event {
            EventView::Texture(texture) => LoaderView {
                stage: next,
                table: state.table,
                icons: state.icons,
                images: state.images,
                frames: state.frames.push(texture),
            },
            _ => failed,
        },
        Stage::SpritesInfo => match event {
            EventView::SpritesParsed(parsed) => LoaderView {
                stage: first_frame_from(parsed, 0),
                table: parsed,
                icons: state.icons,
                images: state.images,
                frames: state.frames,
            },
            _ => failed,
        },
        _ => match event {
            EventView::Loaded => LoaderView {
                stage: next,
                table: state.table,
                icons: state.icons,
                images: state.images,
                frames: state.frames,
            },
            _ => failed,
        },
    }
}

/// Number of ability icons that have been received when a stage begins.
pub open spec fn icons_done(stage: Stage) -> int {
    match stage {
        Stage::AbilityIcon(i) => i as int,
        _ => ABILITY_COUNT as int,
    }
}

/// Number of images that have been received when a stage begins.
pub open spec fn images_done(stage: Stage) -> int {
    match stage {
        Stage::AbilityIcon(_) => 0,
        Stage::Image(slot) => slot as int,
        _ => IMAGE_COUNT as int,
    }
}

/// Number of frames that have been received when a stage begins.
pub open spec fn frames_done(stage: Stage, table: SpriteTable) -> int {
    match stage {
        Stage::AbilityIcon(_) | Stage::Image(_) | Stage::Font | Stage::SpritesInfo => 0,
        Stage::SpriteFrame(object, frame) => frame_position(table, object as int, frame as int),
        _ => frames_from(table, 0) as int,
    }
}

/// A state that a loading can be in: the stage exists, and unless the loading
/// has failed, exactly the textures of the stages before it have been
/// received.
pub open spec fn state_wf(state: LoaderView) -> bool {
    &&& table_fits(state.table)
    &&& stage_wf(state.stage, state.table)
    &&& state.stage != Stage::Failed ==> {
        &&& state.icons.len() == icons_done(state.stage)
        &&& state.images.len() == images_done(state.stage)
        &&& state.frames.len() == frames_done(state.stage, state.table)
    }
}

/// As what a stage's file is loaded; `None` where nothing is left to load.
pub open spec fn request_kind(stage: Stage) -> Option<RequestKind> {
    match stage {
        Stage::AbilityIcon(_) | Stage::Image(_) | Stage::SpriteFrame(_, _) => Some(
            RequestKind::Texture,
        ),
        Stage::Font => Some(RequestKind::Font),
        Stage::Prototypes => Some(RequestKind::Text),
        Stage::SpritesInfo | Stage::DemoScenario | Stage::CampaignPlan | Stage::AgentCampaignInfo => Some(
            RequestKind::Document,
        ),
        Stage::Done | Stage::Failed => None,
    }
}

/// The file of a stage.
pub open spec fn request_path(stage: Stage, table: SpriteTable) -> Seq<char>
    recommends
        stage_wf(stage, table),
        request_kind(stage).is_some(),
{
    match stage {
        Stage::AbilityIcon(i) => Ability::spec_from_index(i as nat).unwrap().spec_icon_path(),
        Stage::Image(slot) => spec_image_path(slot as nat).unwrap(),
        Stage::Font => font_path(),
        Stage::SpritesInfo => sprites_info_path(),
        Stage::SpriteFrame(object, frame) => table[object as int][frame as int].path,
        Stage::Prototypes => prototypes_path(),
        Stage::DemoScenario => demo_scenario_path(),
        Stage::CampaignPlan => campaign_plan_path(),
        Stage::AgentCampaignInfo => agent_campaign_info_path(),
        Stage::Done | Stage::Failed => Seq::empty(),
    }
}

/// Number of requests that are still to be answered at a stage, the current
/// one included, if none of them fails.
pub open spec fn remaining(stage: Stage, table: SpriteTable) -> nat {
    match stage {
        Stage::AbilityIcon(i) => ((ABILITY_COUNT - i) + IMAGE_COUNT + 6 + frames_from(
            table,
            0,
        )) as nat,
        Stage::Image(slot) => ((IMAGE_COUNT - slot) + 6 + frames_from(table, 0)) as nat,
        Stage::Font => 6 + frames_from(table, 0),
        Stage::SpritesInfo => 5 + frames_from(table, 0),
        Stage::SpriteFrame(object, frame) => ((table[object as int].len() - frame) + frames_from(
            table,
            object as nat + 1,
        ) + 4) as nat,
        Stage::Prototypes => 4,
        Stage::DemoScenario => 3,
        Stage::CampaignPlan => 2,
        Stage::AgentCampaignInfo => 1,
        Stage::Done | Stage::Failed => 0,
    }
}

/// The first frame at or after an object exists in the table, and what
/// remains from there is every frame from that object on and the four
/// game-data files.
pub proof fn lemma_first_frame(table: SpriteTable, object: nat)
    requires
        table_fits(table),
    ensures
        stage_wf(first_frame_from(table, object), table),
        remaining(first_frame_from(table, object), table) == frames_from(table, object) + 4,
    decreases table.len() - object,
{
    if object < table.len() && table[object as int].len() == 0 {
        lemma_first_frame(table, object + 1);
    }
}

/// Going on to the next stage takes exactly one request off what remains,
/// and leads to a stage that exists.
pub proof fn lemma_next_stage_counts_down(stage: Stage, table: SpriteTable)
    requires
        table_fits(table),
        stage_wf(stage, table),
        request_kind(stage).is_some(),
    ensures
        stage_wf(next_stage(stage, table), table),
        remaining(next_stage(stage, table), table) + 1 == remaining(stage, table),
{
    match stage {
        Stage::SpritesInfo => lemma_first_frame(table, 0),
        Stage::SpriteFrame(object, frame) => lemma_first_frame(table, object as nat + 1),
        _ => {},
    }
}

/// The table of a parsed sprite description fits, as it was built from
/// vectors.
pub proof fn lemma_event_fits(event: Event)
    ensures
        event@ matches EventView::SpritesParsed(parsed) ==> table_fits(parsed),
{
    match event {
        Event::SpritesParsed(sprites) => lemma_table_of_fits(sprites),
        _ => {},
    }
}

/// Whatever the event, a step leads from a state that a loading can be in to
/// another; `Done` and `Failed` are never left; and a failure leads to
/// `Failed` from everywhere else.
pub proof fn lemma_step(state: LoaderView, event: EventView)
    requires
        state_wf(state),
        event matches EventView::SpritesParsed(parsed) ==> table_fits(parsed),
    ensures
        state_wf(step(state, event)),
        request_kind(state.stage).is_none() ==> step(state, event) == state,
        event == EventView::Failed && request_kind(state.stage).is_some() ==> step(
            state,
            event,
        ).stage == Stage::Failed,
{
    let table = state.table;
    match state.stage {
        Stage::SpritesInfo => {
            if let EventView::SpritesParsed(parsed) = event {
                lemma_first_frame(parsed, 0);
                lemma_frames_done(first_frame_from(parsed, 0), parsed);
            }
        },
        Stage::Done | Stage::Failed => {},
        _ => {
            lemma_next_stage_counts_down(state.stage, table);
            lemma_frames_done(state.stage, table);
            lemma_frames_done(next_stage(state.stage, table), table);
        },
    }
}

/// Every event that does not end in `Failed` takes exactly one request off
/// what remains, counted over the table that the step leaves. So a loading
/// in which nothing fails is done after as many events as [`remaining`] says:
/// one per ability icon, image and listed frame, and six more.
pub proof fn lemma_step_counts_down(state: LoaderView, event: EventView)
    requires
        state_wf(state),
        event matches EventView::SpritesParsed(parsed) ==> table_fits(parsed),
        request_kind(state.stage).is_some(),
        step(state, event).stage != Stage::Failed,
    ensures
        remaining(step(state, event).stage, step(state, event).table) + 1 == remaining(
            state.stage,
            step(state, event).table,
        ),
        remaining(step(state, event).stage, step(state, event).table) == 0 <==> step(
            state,
            event,
        ).stage == Stage::Done,
{
    match state.stage {
        Stage::SpritesInfo => {
            if let EventView::SpritesParsed(parsed) = event {
                lemma_first_frame(parsed, 0);
            }
        },
        _ => {
            lemma_next_stage_counts_down(state.stage, state.table);
        },
    }
}

/// From the first frame on, the frames received and the requests that remain
/// make up all frames and the four game-data files, of which as many remain
/// as the stage says.
pub proof fn lemma_frames_done(stage: Stage, table: SpriteTable)
    requires
        stage_wf(stage, table),
    ensures
        stage is SpriteFrame ==> frames_done(stage, table) + remaining(stage, table) == frames_from(
            table,
            0,
        ) + 4,
        0 <= frames_done(stage, table) <= frames_from(table, 0),
{
    if let Stage::SpriteFrame(object, frame) = stage {
        lemma_frames_from_decreasing(table, 0, object as nat);
    }
}

/// The later the object, the fewer frames from it on.
pub proof fn lemma_frames_from_decreasing(table: SpriteTable, earlier: nat, later: nat)
    requires
        earlier <= later,
    ensures
        frames_from(table, later) <= frames_from(table, earlier),
    decreases later - earlier,
{
    if earlier < later {
        lemma_frames_from_decreasing(table, earlier + 1, later);
    }
}

/// A texture lands where its stage says: the icon of the ability at position
/// `i` at index `i` of the icons, the image of a slot at the slot's index,
/// and a frame at its position among all frames. What was received before
/// stays where it was.
pub proof fn lemma_texture_lands(state: LoaderView, texture: Texture2D)
    requires
        state_wf(state),
    ensures
        ({
            let next = step(state, EventView::Texture(texture));
            match state.stage {
                Stage::AbilityIcon(i) => next.icons[i as int] == texture && next.icons.subrange(
                    0,
                    i as int,
                ) == state.icons && next.images == state.images && next.frames == state.frames,
                Stage::Image(slot) => next.images[slot as int] == texture && next.images.subrange(
                    0,
                    slot as int,
                ) == state.images && next.icons == state.icons && next.frames == state.frames,
                Stage::SpriteFrame(object, frame) => {
                    let at: int = frame_position(state.table, object as int, frame as int);
                    next.frames[at] == texture && next.frames.subrange(0, at) == state.frames
                        && next.icons == state.icons && next.images == state.images
                },
                _ => next.icons == state.icons && next.images == state.images && next.frames
                    == state.frames,
            }
        }),
{
    let next = step(state, EventView::Texture(texture));
    lemma_frames_done(state.stage, state.table);
    match state.stage {
        Stage::AbilityIcon(i) => {
            assert(next.icons.subrange(0, i as int) =~= state.icons);
        },
        Stage::Image(slot) => {
            assert(next.images.subrange(0, slot as int) =~= state.images);
        },
        Stage::SpriteFrame(object, frame) => {
            let at: int = frame_position(state.table, object as int, frame as int);
            assert(next.frames.subrange(0, at) =~= state.frames);
        },
        _ => {},
    }
}

/// Computes [`first_frame_from`].
fn first_frame_at(sprites: &Vec<SpriteFrames>, start: usize) -> (stage: Stage)
    ensures
        stage == first_frame_from(table_of(sprites@), start as nat),
        stage_wf(stage, table_of(sprites@)),
{
    let ghost table = table_of(sprites@);
    let mut object: usize = start;
    while object < sprites.len()
        invariant
            table == table_of(sprites@),
            first_frame_from(table, object as nat) == first_frame_from(table, start as nat),
        decreases sprites.len() - object,
    {
        if sprites[object].frames.len() > 0 {
            return Stage::SpriteFrame(object, 0);
        }
        object += 1;
    }
    Stage::Prototypes
}

/// Everything that a finished loading has gathered.
#[derive(Debug)]
pub struct Loaded {
    /// The images and ability icons.
    pub images: Images,
    /// The frames of every kind of object, as the sprite description listed
    /// them.
    pub sprites: Vec<SpriteFrames>,
    /// The loaded frames: one list per entry of `sprites`, one named texture
    /// per frame.
    pub sprite_frames: Vec<Vec<FrameTexture>>,
}

/// A loading in progress.
#[derive(Debug)]
pub struct Loader {
    stage: Stage,
    sprites: Vec<SpriteFrames>,
    icons: Vec<Texture2D>,
    images: Vec<Texture2D>,
    frames: Vec<Texture2D>,
}

impl View for Loader {
    type V = LoaderView;

    closed spec fn view(&self) -> LoaderView {
        LoaderView {
            stage: self.stage,
            table: table_of(self.sprites@),
            icons: self.icons@,
            images: self.images@,
            frames: self.frames@,
        }
    }
}

impl Loader {
    #[verifier::type_invariant]
    spec fn well_formed(self) -> bool {
        state_wf(self@)
    }

    /// A loader that has loaded nothing yet: it starts with the first ability
    /// icon.
    pub fn new() -> (loader: Loader)
        ensures
            loader@ == (LoaderView {
                stage: Stage::AbilityIcon(0),
                table: Seq::empty(),
                icons: Seq::empty(),
                images: Seq::empty(),
                frames: Seq::empty(),
            }),
            state_wf(loader@),
    {
        let loader = Loader {
            stage: Stage::AbilityIcon(0),
            sprites: Vec::new(),
            icons: Vec::new(),
            images: Vec::new(),
            frames: Vec::new(),
        };
        assert(table_of(loader.sprites@) =~= Seq::<Seq<FramePathView>>::empty());
        loader
    }

    /// What is being loaded.
    pub fn stage(&self) -> (stage: Stage)
        ensures
            stage == self@.stage,
            state_wf(self@),
    {
        proof {
            use_type_invariant(self);
        }
        self.stage
    }

    /// The frames of every kind of object, as the sprite description listed
    /// them; empty until it has been parsed.
    pub fn sprites(&self) -> (sprites: &Vec<SpriteFrames>)
        ensures
            table_of(sprites@) == self@.table,
    {
        &self.sprites
    }

    /// The file to load next, and as what; `None` once the loading is done or
    /// has failed.
    pub fn request(&self) -> (request: Option<Request>)
        ensures
            match request {
                Some(r) => request_kind(self@.stage) == Some(r.kind) && r.path@ == request_path(
                    self@.stage,
                    self@.table,
                ),
                None => request_kind(self@.stage).is_none(),
            },
    {
        proof {
            use_type_invariant(self);
        }
        match self.stage {
            Stage::AbilityIcon(i) => {
                match Ability::from_index(i) {
                    Some(ability) => Some(
                        Request { kind: RequestKind::Texture, path: ability.icon_path() },
                    ),
                    None => None,
                }
            },
            Stage::Image(slot) => {
                match image_path(slot) {
                    Some(path) => Some(
                        Request { kind: RequestKind::Texture, path: String::from_str(path) },
                    ),
                    None => None,
                }
            },
            Stage::Font => Some(
                Request {
                    kind: RequestKind::Font,
                    path: String::from_str("assets/OpenSans-Regular.ttf"),
                },
            ),
            Stage::SpritesInfo => Some(
                Request { kind: RequestKind::Document, path: String::from_str("assets/sprites.ron") },
            ),
            Stage::SpriteFrame(object, frame) => Some(
                Request {
                    kind: RequestKind::Texture,
                    path: self.sprites[object].frames[frame].path.clone(),
                },
            ),
            Stage::Prototypes => Some(
                Request { kind: RequestKind::Text, path: String::from_str("assets/objects.ron") },
            ),
            Stage::DemoScenario => Some(
                Request {
                    kind: RequestKind::Document,
                    path: String::from_str("assets/scenario_01.ron"),
                },
            ),
            Stage::CampaignPlan => Some(
                Request {
                    kind: RequestKind::Document,
                    path: String::from_str("assets/campaign_01.ron"),
                },
            ),
            Stage::AgentCampaignInfo => Some(
                Request {
                    kind: RequestKind::Document,
                    path: String::from_str("assets/agent_campaign_info.ron"),
                },
            ),
            Stage::Done | Stage::Failed => None,
        }
    }

    /// The stage that follows the current one once its file has been loaded.
    fn following(&self) -> (stage: Stage)
        ensures
            stage == next_stage(self@.stage, self@.table),
    {
        proof {
            use_type_invariant(self);
        }
        match self.stage {
            Stage::AbilityIcon(i) => if i + 1 < ABILITY_COUNT {
                Stage::AbilityIcon(i + 1)
            } else {
                Stage::Image(0)
            },
            Stage::Image(slot) => if slot + 1 < IMAGE_COUNT {
                Stage::Image(slot + 1)
            } else {
                Stage::Font
            },
            Stage::Font => Stage::SpritesInfo,
            Stage::SpritesInfo => first_frame_at(&self.sprites, 0),
            Stage::SpriteFrame(object, frame) => {
                let frames: usize = self.sprites[object].frames.len();
                if frame + 1 < frames {
                    Stage::SpriteFrame(object, frame + 1)
                } else {
                    first_frame_at(&self.sprites, object + 1)
                }
            },
            Stage::Prototypes => Stage::DemoScenario,
            Stage::DemoScenario => Stage::CampaignPlan,
            Stage::CampaignPlan => Stage::AgentCampaignInfo,
            Stage::AgentCampaignInfo => Stage::Done,
            Stage::Done => Stage::Done,
            Stage::Failed => Stage::Failed,
        }
    }

    /// Takes the outcome of the current request and moves on as [`step`]
    /// says.
    pub fn advance(self, event: Event) -> (next: Loader)
        ensures
            next@ == step(self@, event@),
            state_wf(next@),
    {
        proof {
            use_type_invariant(&self);
            lemma_event_fits(event);
            lemma_step(self@, event@);
        }
        let following = self.following();
        let Loader { stage, sprites, mut icons, mut images, mut frames } = self;
        match stage {
            Stage::Done | Stage::Failed => Loader { stage, sprites, icons, images, frames },
            Stage::AbilityIcon(_) => match event {
                Event::Texture(texture) => {
                    icons.push(texture);
                    Loader { stage: following, sprites, icons, images, frames }
                },
                _ => Loader { stage: Stage::Failed, sprites, icons, images, frames },
            },
            Stage::Image(_) => match event {
                Event::Texture(texture) => {
                    images.push(texture);
                    Loader { stage: following, sprites, icons, images, frames }
                },
                _ => Loader { stage: Stage::Failed, sprites, icons, images, frames },
            },
            Stage::SpriteFrame(_, _) => match event {
                Event::Texture(texture) => {
                    frames.push(texture);
                    Loader { stage: following, sprites, icons, images, frames }
                },
                _ => Loader { stage: Stage::Failed, sprites, icons, images, frames },
            },
            Stage::SpritesInfo => match event {
                Event::SpritesParsed(parsed) => {
                    let first = first_frame_at(&parsed, 0);
                    Loader { stage: first, sprites: parsed, icons, images, frames }
                },
                _ => Loader { stage: Stage::Failed, sprites, icons, images, frames },
            },
            _ => match event {
                Event::Loaded => Loader { stage: following, sprites, icons, images, frames },
                _ => Loader { stage: Stage::Failed, sprites, icons, images, frames },
            },
        }
    }

    /// Hands over what was loaded, each texture in its place; `None` unless
    /// the loading is done.
    pub fn finish(self) -> (loaded: Option<Loaded>)
        ensures
            loaded.is_some() <==> self@.stage == Stage::Done,
            loaded.is_some() ==> {
                let l = loaded.unwrap();
                &&& forall|ability: Ability| #[trigger]
                    l.images.ability_icons.spec_get(ability) == self@.icons[ability.spec_index() as int]
                &&& forall|slot: nat|
                    slot < IMAGE_COUNT ==> #[trigger] l.images.spec_texture(slot)
                        == self@.images[slot as int]
                &&& table_of(l.sprites@) == self@.table
                &&& grouped(self@.table, self@.frames, l.sprite_frames@)
            },
    {
        proof {
            use_type_invariant(&self);
        }
        let Loader { stage, sprites, icons, images, frames } = self;
        if stage != Stage::Done {
            return None;
        }
        let icons = match AbilityIcons::from_textures(icons) {
            Some(icons) => icons,
            None => {
                return None;
            },
        };
        let images = match Images::from_textures(icons, images) {
            Some(images) => images,
            None => {
                return None;
            },
        };
        let sprite_frames = match group_frame_textures(&sprites, frames) {
            Some(groups) => groups,
            None => {
                return None;
            },
        };
        Some(Loaded { images, sprites, sprite_frames })
    }
}

} // verus!
