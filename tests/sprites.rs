use lemonhead::sprite::{describe, Actor, ActorState, Blood, Bubble, Lemonhead, Npc, Sprite, Text, Tile};
use lemonhead::logic::Unit;

#[test]
fn tile_offsets_are_sixteen_pixel_cells() {
    assert_eq!(Tile::Coin.offset(), (160, 64));
    assert_eq!(Tile::LemonAngel1.offset(), (192, 160));
    assert_eq!(Tile::VoicesText.offset(), (128, 240));
    assert_eq!(Tile::Grass.offset(), (0, 0));
    assert_eq!(Tile::Ascension3.offset(), (96, 0));
}

#[test]
fn tile_sizes() {
    assert_eq!(Tile::Logo.size(), (64, 64));
    assert_eq!(Tile::CityLayer2.size(), (64, 32));
    assert_eq!(Tile::IntroductionGoalsText.size(), (128, 16));
    assert_eq!(Tile::GameOver.size(), (32, 16));
    assert_eq!(Tile::Ascension1.size(), (32, 128));
    assert_eq!(Tile::Bed.size(), (32, 32));
}

#[test]
fn tile_paths() {
    assert_eq!(Tile::Ascension0.path(), "assets/ascension.png");
    assert_eq!(Tile::Coin.path(), "assets/tile.png");
}

#[test]
fn actor_frames() {
    assert_eq!(Actor::lemonhead_sprite(&ActorState::Left, true), Actor::Lemonhead(Lemonhead::LeftAlt));
    assert_eq!(Actor::lemonhead_sprite(&ActorState::Idle, false), Actor::Lemonhead(Lemonhead::Idle));
    assert_eq!(Actor::npc_sprite(&ActorState::Right, false, Actor::Dad), Actor::Dad(Npc::Right));
    assert_eq!(Actor::npc_sprite(&ActorState::Idle, true, Actor::Child), Actor::Child(Npc::IdleAlt));
}

#[test]
fn actor_sheet_lookup() {
    assert_eq!(Actor::Lemonhead(Lemonhead::Left).offset(), (128, 0));
    assert_eq!(Actor::Dad(Npc::Dead).offset(), (192, 0));
    assert_eq!(Actor::Child(Npc::RightAlt).offset(), (96, 0));
    assert_eq!(Actor::Dad(Npc::Idle).path(), "assets/dad.png");
    assert_eq!(Actor::Child(Npc::Idle).size(), (32, 32));
}

#[test]
fn prompt_texts() {
    assert_eq!(Text::SelfDefense.width(), Unit(4000));
    assert_eq!(Text::Ascend.width(), Unit(2000));
    assert_eq!(Text::OneLeft.offset(), (32, 32));
    assert_eq!(Text::NoWitnesses.size(), (64, 16));
    assert_eq!(Text::More.path(), "assets/prompt.png");
}

#[test]
fn bubble_and_blood_lookup() {
    assert_eq!(Bubble::L5.offset(), (160, 0));
    assert_eq!(Bubble::L0.path(), "assets/bubble.png");
    assert_eq!(Blood::PraiseLemon.offset(), (64, 0));
    assert_eq!(Blood::SplatterLeft.offset(), (32, 32));
}

#[test]
fn descriptor_collects_the_lookup() {
    let d = describe(&Tile::Key);
    assert_eq!(d.path, "assets/tile.png");
    assert_eq!(d.offset, (64, 32));
    assert_eq!(d.size, (32, 32));
}
