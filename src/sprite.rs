use vstd::prelude::*;

use crate::logic::Unit;

verus! {

/// A drawable region of an image: where it lies in its sheet, in pixels, and
/// which file holds it.
pub trait Sprite {
    spec fn spec_size(&self) -> (u32, u32);

    spec fn spec_offset(&self) -> (u32, u32);

    spec fn spec_path(&self) -> Seq<char>;

    fn size(&self) -> (r: (u32, u32))
        ensures
            r == self.spec_size(),
    ;

    fn offset(&self) -> (r: (u32, u32))
        ensures
            r == self.spec_offset(),
    ;

    fn path(&self) -> (r: &'static str)
        ensures
            r@ == self.spec_path(),
    ;
}

/// The resolved source rectangle and image of a sprite.
#[derive(Clone, Copy, Debug)]
pub struct SpriteDesc {
    pub path: &'static str,
    pub offset: (u32, u32),
    pub size: (u32, u32),
}

/// Looks up the descriptor of any sprite.
pub fn describe<S: Sprite>(sprite: &S) -> (r: SpriteDesc)
    ensures
        r.path@ == sprite.spec_path(),
        r.offset == sprite.spec_offset(),
        r.size == sprite.spec_size(),
{
    SpriteDesc { path: sprite.path(), offset: sprite.offset(), size: sprite.size() }
}

impl Sprite for SpriteDesc {
    open spec fn spec_size(&self) -> (u32, u32) {
        self.size
    }

    open spec fn spec_offset(&self) -> (u32, u32) {
        self.offset
    }

    open spec fn spec_path(&self) -> Seq<char> {
        self.path@
    }

    fn size(&self) -> (r: (u32, u32)) {
        self.size
    }

    fn offset(&self) -> (r: (u32, u32)) {
        self.offset
    }

    fn path(&self) -> (r: &'static str) {
        self.path
    }
}

/// Animation frames of the player character.
#[derive(Clone, Copy, PartialEq, Eq, Structural, Debug)]
pub enum Lemonhead {
    Idle,
    IdleAlt,
    Left,
    LeftAlt,
    Right,
    RightAlt,
}

/// Animation frames of a non-player character.
#[derive(Clone, Copy, PartialEq, Eq, Structural, Debug)]
pub enum Npc {
    Idle,
    IdleAlt,
    Left,
    LeftAlt,
    Right,
    RightAlt,
    Dead,
}

/// A character sprite: who it is and which frame.
#[derive(Clone, Copy, PartialEq, Eq, Structural, Debug)]
pub enum Actor {
    Lemonhead(Lemonhead),
    Dad(Npc),
    Child(Npc),
}

/// What a character is doing this frame.
#[derive(Clone, Copy, PartialEq, Eq, Structural, Debug)]
pub enum ActorState {
    Idle,
    Left,
    Right,
}

/// The player frame for a state, in its first or alternate pose.
pub open spec fn lemonhead_frame(state: ActorState, use_alt: bool) -> Lemonhead {
    match (state, use_alt) {
        (ActorState::Idle, false) => Lemonhead::Idle,
        (ActorState::Idle, true) => Lemonhead::IdleAlt,
        (ActorState::Left, false) => Lemonhead::Left,
        (ActorState::Left, true) => Lemonhead::LeftAlt,
        (ActorState::Right, false) => Lemonhead::Right,
        (ActorState::Right, true) => Lemonhead::RightAlt,
    }
}

/// The non-player frame for a state, in its first or alternate pose.
pub open spec fn npc_frame(state: ActorState, use_alt: bool) -> Npc {
    match (state, use_alt) {
        (ActorState::Idle, false) => Npc::Idle,
        (ActorState::Idle, true) => Npc::IdleAlt,
        (ActorState::Left, false) => Npc::Left,
        (ActorState::Left, true) => Npc::LeftAlt,
        (ActorState::Right, false) => Npc::Right,
        (ActorState::Right, true) => Npc::RightAlt,
    }
}

/// Column of a frame in its character sheet.
pub open spec fn actor_column(a: Actor) -> u32 {
    match a {
        Actor::Lemonhead(l) => match l {
            Lemonhead::Idle => 0,
            Lemonhead::IdleAlt => 1,
            Lemonhead::Right => 2,
            Lemonhead::RightAlt => 3,
            Lemonhead::Left => 4,
            Lemonhead::LeftAlt => 5,
        },
        Actor::Dad(n) | Actor::Child(n) => match n {
            Npc::Idle => 0,
            Npc::IdleAlt => 1,
            Npc::Right => 2,
            Npc::RightAlt => 3,
            Npc::Left => 4,
            Npc::LeftAlt => 5,
            Npc::Dead => 6,
        },
    }
}

impl Actor {
    pub fn lemonhead_sprite(state: &ActorState, use_alt: bool) -> (r: Actor)
        ensures
            r == Actor::Lemonhead(lemonhead_frame(*state, use_alt)),
    {
        let frame = if use_alt {
            match state {
                ActorState::Idle => Lemonhead::IdleAlt,
                ActorState::Left => Lemonhead::LeftAlt,
                ActorState::Right => Lemonhead::RightAlt,
            }
        } else {
            match state {
                ActorState::Idle => Lemonhead::Idle,
                ActorState::Left => Lemonhead::Left,
                ActorState::Right => Lemonhead::Right,
            }
        };
        Actor::Lemonhead(frame)
    }

    /// The frame for `state`, handed to `npc` to say whose sprite it is.
    pub fn npc_sprite<F: Fn(Npc) -> Actor>(state: &ActorState, use_alt: bool, npc: F) -> (r: Actor)
        requires
            forall|n: Npc| npc.requires((n,)),
        ensures
            npc.ensures((npc_frame(*state, use_alt),), r),
    {
        let frame = if use_alt {
            match state {
                ActorState::Idle => Npc::IdleAlt,
                ActorState::Left => Npc::LeftAlt,
                ActorState::Right => Npc::RightAlt,
            }
        } else {
            match state {
                ActorState::Idle => Npc::Idle,
                ActorState::Left => Npc::Left,
                ActorState::Right => Npc::Right,
            }
        };
        npc(frame)
    }
}

impl Sprite for Actor {
    open spec fn spec_size(&self) -> (u32, u32) {
        (32, 32)
    }

    open spec fn spec_offset(&self) -> (u32, u32) {
        ((actor_column(*self) * 32) as u32, 0)
    }

    open spec fn spec_path(&self) -> Seq<char> {
        match self {
            Actor::Lemonhead(_) => "assets/lemonhead.png"@,
            Actor::Dad(_) => "assets/dad.png"@,
            Actor::Child(_) => "assets/child.png"@,
        }
    }

    fn size(&self) -> (r: (u32, u32)) {
        (32, 32)
    }

    fn offset(&self) -> (r: (u32, u32)) {
        let x: u32 = match self {
            Actor::Lemonhead(lemon) => match lemon {
                Lemonhead::Idle => 0,
                Lemonhead::IdleAlt => 1,
                Lemonhead::Right => 2,
                Lemonhead::RightAlt => 3,
                Lemonhead::Left => 4,
                Lemonhead::LeftAlt => 5,
            },
            Actor::Child(npc) | Actor::Dad(npc) => match npc {
                Npc::Idle => 0,
                Npc::IdleAlt => 1,
                Npc::Right => 2,
                Npc::RightAlt => 3,
                Npc::Left => 4,
                Npc::LeftAlt => 5,
                Npc::Dead => 6,
            },
        };
        (x * 32, 0)
    }

    fn path(&self) -> (r: &'static str) {
        match self {
            Actor::Lemonhead(_) => "assets/lemonhead.png",
            Actor::Dad(_) => "assets/dad.png",
            Actor::Child(_) => "assets/child.png",
        }
    }
}

/// Prompt texts shown above the player.
#[derive(Clone, Copy, PartialEq, Eq, Structural, Debug)]
pub enum Text {
    NoWitnesses,
    SelfDefense,
    Space,
    OneLeft,
    More,
    Ascend,
}

/// Whether a prompt is one of the two wide ones.
pub open spec fn text_is_wide(t: Text) -> bool {
    t == Text::SelfDefense || t == Text::NoWitnesses
}

/// Width of a prompt in milli-units: four units for the wide ones, else two.
pub open spec fn text_width(t: Text) -> int {
    if text_is_wide(t) {
        4000
    } else {
        2000
    }
}

impl Text {
    /// Width of the prompt in world units: four for the wide ones, else two.
    pub fn width(&self) -> (r: Unit)
        ensures
            r.spec_milli() == text_width(*self),
    {
        match self {
            Text::SelfDefense | Text::NoWitnesses => Unit(4000),
            Text::Space | Text::OneLeft | Text::More | Text::Ascend => Unit(2000),
        }
    }
}

impl Sprite for Text {
    open spec fn spec_size(&self) -> (u32, u32) {
        if text_is_wide(*self) {
            (64, 16)
        } else {
            (32, 16)
        }
    }

    open spec fn spec_offset(&self) -> (u32, u32) {
        match self {
            Text::NoWitnesses => (0, 0),
            Text::SelfDefense => (0, 16),
            Text::Space => (0, 32),
            Text::OneLeft => (32, 32),
            Text::More => (0, 48),
            Text::Ascend => (32, 48),
        }
    }

    open spec fn spec_path(&self) -> Seq<char> {
        "assets/prompt.png"@
    }

    fn size(&self) -> (r: (u32, u32)) {
        match self {
            Text::SelfDefense | Text::NoWitnesses => (64, 16),
            Text::Space | Text::OneLeft | Text::More | Text::Ascend => (32, 16),
        }
    }

    fn offset(&self) -> (r: (u32, u32)) {
        match self {
            Text::NoWitnesses => (0, 0),
            Text::SelfDefense => (0, 16),
            Text::Space => (0, 32),
            Text::OneLeft => (32, 32),
            Text::More => (0, 48),
            Text::Ascend => (32, 48),
        }
    }

    fn path(&self) -> (r: &'static str) {
        "assets/prompt.png"
    }
}

/// Frames of the speech bubble that fills up during the confrontation.
#[derive(Clone, Copy, PartialEq, Eq, Structural, Debug)]
pub enum Bubble {
    L0,
    L1,
    L2,
    L3,
    L4,
    L5,
    L6,
    L7,
}

/// Column of a bubble frame.
pub open spec fn bubble_column(b: Bubble) -> u32 {
    match b {
        Bubble::L0 => 0,
        Bubble::L1 => 1,
        Bubble::L2 => 2,
        Bubble::L3 => 3,
        Bubble::L4 => 4,
        Bubble::L5 => 5,
        Bubble::L6 => 6,
        Bubble::L7 => 7,
    }
}

impl Sprite for Bubble {
    open spec fn spec_size(&self) -> (u32, u32) {
        (32, 32)
    }

    open spec fn spec_offset(&self) -> (u32, u32) {
        ((bubble_column(*self) * 32) as u32, 0)
    }

    open spec fn spec_path(&self) -> Seq<char> {
        "assets/bubble.png"@
    }

    fn size(&self) -> (r: (u32, u32)) {
        (32, 32)
    }

    fn offset(&self) -> (r: (u32, u32)) {
        let x: u32 = match self {
            Bubble::L0 => 0,
            Bubble::L1 => 1,
            Bubble::L2 => 2,
            Bubble::L3 => 3,
            Bubble::L4 => 4,
            Bubble::L5 => 5,
            Bubble::L6 => 6,
            Bubble::L7 => 7,
        };
        (x * 32, 0)
    }

    fn path(&self) -> (r: &'static str) {
        "assets/bubble.png"
    }
}

/// Blood decals.
#[derive(Clone, Copy, PartialEq, Eq, Structural, Debug)]
pub enum Blood {
    SplatterLeft,
    SplatterCenter,
    SplatterRight,
    Pentagram,
    PraiseLemon,
}

impl Sprite for Blood {
    open spec fn spec_size(&self) -> (u32, u32) {
        (32, 32)
    }

    open spec fn spec_offset(&self) -> (u32, u32) {
        match self {
            Blood::SplatterLeft => (32, 32),
            Blood::SplatterCenter => (0, 0),
            Blood::SplatterRight => (0, 32),
            Blood::Pentagram => (32, 0),
            Blood::PraiseLemon => (64, 0),
        }
    }

    open spec fn spec_path(&self) -> Seq<char> {
        "assets/blood.png"@
    }

    fn size(&self) -> (r: (u32, u32)) {
        (32, 32)
    }

    fn offset(&self) -> (r: (u32, u32)) {
        match self {
            Blood::SplatterLeft => (32, 32),
            Blood::SplatterCenter => (0, 0),
            Blood::SplatterRight => (0, 32),
            Blood::Pentagram => (32, 0),
            Blood::PraiseLemon => (64, 0),
        }
    }

    fn path(&self) -> (r: &'static str) {
        "assets/blood.png"
    }
}

/// Every tile of the shared sprite sheets.
#[derive(Clone, Copy, PartialEq, Eq, Structural, Debug)]
pub enum Tile {
    LemonAngel0,
    LemonAngel1,
    Cloud0,
    Cloud1,
    Cloud2,
    Cloud3,
    GameOver,
    TreeTrunk,
    LemonSkull,
    TreeLeaves,
    Cross,
    Bike,
    Grass,
    HouseBrick,
    StripeWallpaper,
    LeftTriangle,
    RightTriangle,
    Block,
    Computer,
    OfficeChair,
    DoorClosed,
    DoorOpen,
    Ground,
    TreeDayPicture,
    HousePicture,
    TreeNightPicture,
    LemonDayPicture,
    LemonNightPicture,
    Sun,
    LemonSun,
    Oven,
    Couch,
    KitchenBrick,
    ChildPoster,
    ChildSticker,
    DotWallpaper,
    Bed,
    CityLayer0,
    CityLayer1,
    CityLayer2,
    LemonCar0,
    LemonCar1,
    Weapon,
    Coin,
    Key,
    IntroductionText,
    IntroductionGoalsText,
    RememberText,
    VoicesText,
    Logo,
    Ascension0,
    Ascension1,
    Ascension2,
    Ascension3,
}

/// Grid cell (16 pixels per cell) of the top-left corner of a tile.
pub open spec fn tile_cell(t: Tile) -> (u32, u32) {
    match t {
        Tile::LemonAngel0 => (12, 8),
        Tile::LemonAngel1 => (12, 10),
        Tile::Cloud0 => (12, 0),
        Tile::Cloud1 => (12, 2),
        Tile::Cloud2 => (12, 4),
        Tile::Cloud3 => (12, 6),
        Tile::GameOver => (8, 13),
        Tile::TreeTrunk => (4, 12),
        Tile::LemonSkull => (8, 12),
        Tile::TreeLeaves => (6, 12),
        Tile::Cross => (2, 12),
        Tile::Bike => (0, 12),
        Tile::Grass => (0, 0),
        Tile::HouseBrick => (2, 0),
        Tile::StripeWallpaper => (4, 0),
        Tile::LeftTriangle => (6, 0),
        Tile::RightTriangle => (6, 2),
        Tile::Block => (2, 2),
        Tile::Computer => (8, 0),
        Tile::OfficeChair => (8, 2),
        Tile::DoorClosed => (10, 0),
        Tile::DoorOpen => (10, 2),
        Tile::Ground => (0, 2),
        Tile::TreeDayPicture => (0, 4),
        Tile::HousePicture => (2, 4),
        Tile::TreeNightPicture => (4, 4),
        Tile::LemonDayPicture => (6, 4),
        Tile::LemonNightPicture => (8, 4),
        Tile::Sun => (0, 6),
        Tile::LemonSun => (6, 6),
        Tile::Oven => (2, 6),
        Tile::Couch => (4, 6),
        Tile::KitchenBrick => (8, 6),
        Tile::ChildPoster => (0, 8),
        Tile::ChildSticker => (2, 8),
        Tile::DotWallpaper => (4, 8),
        Tile::Bed => (6, 8),
        Tile::CityLayer0 => (10, 8),
        Tile::CityLayer1 => (8, 8),
        Tile::CityLayer2 => (8, 10),
        Tile::LemonCar0 => (0, 10),
        Tile::LemonCar1 => (4, 10),
        Tile::Weapon => (10, 6),
        Tile::Coin => (10, 4),
        Tile::Key => (4, 2),
        Tile::IntroductionText => (0, 14),
        Tile::IntroductionGoalsText => (0, 15),
        Tile::RememberText => (4, 14),
        Tile::VoicesText => (8, 15),
        Tile::Logo => (10, 12),
        Tile::Ascension0 => (0, 0),
        Tile::Ascension1 => (2, 0),
        Tile::Ascension2 => (4, 0),
        Tile::Ascension3 => (6, 0),
    }
}

/// Size of a tile in grid cells of 16 pixels.
pub open spec fn tile_cells_size(t: Tile) -> (u32, u32) {
    match t {
        Tile::GameOver => (2, 1),
        Tile::LemonSkull => (2, 1),
        Tile::CityLayer2 => (4, 2),
        Tile::LemonCar0 => (4, 2),
        Tile::LemonCar1 => (4, 2),
        Tile::IntroductionText => (4, 1),
        Tile::IntroductionGoalsText => (8, 1),
        Tile::RememberText => (6, 1),
        Tile::VoicesText => (2, 1),
        Tile::Logo => (4, 4),
        Tile::Ascension0 => (2, 8),
        Tile::Ascension1 => (2, 8),
        Tile::Ascension2 => (2, 8),
        Tile::Ascension3 => (2, 8),
        _ => (2, 2),
    }
}

/// Whether a tile lives on the ascension sheet rather than the main one.
pub open spec fn tile_on_ascension_sheet(t: Tile) -> bool {
    t == Tile::Ascension0 || t == Tile::Ascension1 || t == Tile::Ascension2 || t
        == Tile::Ascension3
}

impl Sprite for Tile {
    open spec fn spec_size(&self) -> (u32, u32) {
        ((tile_cells_size(*self).0 * 16) as u32, (tile_cells_size(*self).1 * 16) as u32)
    }

    open spec fn spec_offset(&self) -> (u32, u32) {
        ((tile_cell(*self).0 * 16) as u32, (tile_cell(*self).1 * 16) as u32)
    }

    open spec fn spec_path(&self) -> Seq<char> {
        if tile_on_ascension_sheet(*self) {
            "assets/ascension.png"@
        } else {
            "assets/tile.png"@
        }
    }

    fn size(&self) -> (r: (u32, u32)) {
        let cells: (u32, u32) = match self {
            Tile::GameOver => (2, 1),
            Tile::LemonSkull => (2, 1),
            Tile::CityLayer2 => (4, 2),
            Tile::LemonCar0 => (4, 2),
            Tile::LemonCar1 => (4, 2),
            Tile::IntroductionText => (4, 1),
            Tile::IntroductionGoalsText => (8, 1),
            Tile::RememberText => (6, 1),
            Tile::VoicesText => (2, 1),
            Tile::Logo => (4, 4),
            Tile::Ascension0 => (2, 8),
            Tile::Ascension1 => (2, 8),
            Tile::Ascension2 => (2, 8),
            Tile::Ascension3 => (2, 8),
            _ => (2, 2),
        };
        (cells.0 * 16, cells.1 * 16)
    }

    fn offset(&self) -> (r: (u32, u32)) {
        let cell: (u32, u32) = match self {
            Tile::LemonAngel0 => (12, 8),
            Tile::LemonAngel1 => (12, 10),
            Tile::Cloud0 => (12, 0),
            Tile::Cloud1 => (12, 2),
            Tile::Cloud2 => (12, 4),
            Tile::Cloud3 => (12, 6),
            Tile::GameOver => (8, 13),
            Tile::TreeTrunk => (4, 12),
            Tile::LemonSkull => (8, 12),
            Tile::TreeLeaves => (6, 12),
            Tile::Cross => (2, 12),
            Tile::Bike => (0, 12),
            Tile::Grass => (0, 0),
            Tile::HouseBrick => (2, 0),
            Tile::StripeWallpaper => (4, 0),
            Tile::LeftTriangle => (6, 0),
            Tile::RightTriangle => (6, 2),
            Tile::Block => (2, 2),
            Tile::Computer => (8, 0),
            Tile::OfficeChair => (8, 2),
            Tile::DoorClosed => (10, 0),
            Tile::DoorOpen => (10, 2),
            Tile::Ground => (0, 2),
            Tile::TreeDayPicture => (0, 4),
            Tile::HousePicture => (2, 4),
            Tile::TreeNightPicture => (4, 4),
            Tile::LemonDayPicture => (6, 4),
            Tile::LemonNightPicture => (8, 4),
            Tile::Sun => (0, 6),
            Tile::LemonSun => (6, 6),
            Tile::Oven => (2, 6),
            Tile::Couch => (4, 6),
            Tile::KitchenBrick => (8, 6),
            Tile::ChildPoster => (0, 8),
            Tile::ChildSticker => (2, 8),
            Tile::DotWallpaper => (4, 8),
            Tile::Bed => (6, 8),
            Tile::CityLayer0 => (10, 8),
            Tile::CityLayer1 => (8, 8),
            Tile::CityLayer2 => (8, 10),
            Tile::LemonCar0 => (0, 10),
            Tile::LemonCar1 => (4, 10),
            Tile::Weapon => (10, 6),
            Tile::Coin => (10, 4),
            Tile::Key => (4, 2),
            Tile::IntroductionText => (0, 14),
            Tile::IntroductionGoalsText => (0, 15),
            Tile::RememberText => (4, 14),
            Tile::VoicesText => (8, 15),
            Tile::Logo => (10, 12),
            Tile::Ascension0 => (0, 0),
            Tile::Ascension1 => (2, 0),
            Tile::Ascension2 => (4, 0),
            Tile::Ascension3 => (6, 0),
        };
        (cell.0 * 16, cell.1 * 16)
    }

    fn path(&self) -> (r: &'static str) {
        match self {
            Tile::Ascension0 | Tile::Ascension1 | Tile::Ascension2 | Tile::Ascension3 => {
                "assets/ascension.png"
            },
            _ => "assets/tile.png",
        }
    }
}

} // verus!
