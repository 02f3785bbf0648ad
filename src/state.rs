use vstd::prelude::*;

use crate::logic::Unit;
use crate::scenes::Scenes;

verus! {

#[derive(Clone, Copy, PartialEq, Eq, Structural, Debug)]
pub struct Tutorial {
    pub coin: bool,
}

#[derive(Clone, Copy, PartialEq, Eq, Structural, Debug)]
pub struct Outside {
    pub key_collected: bool,
}

#[derive(Clone, Copy, Debug)]
pub struct Entryway {
    pub coins: [bool; 4],
}

/// Every flag of the slice is set.
pub open spec fn all_set(flags: Seq<bool>) -> bool {
    forall|i: int| 0 <= i < flags.len() ==> #[trigger] flags[i]
}

/// Whether every coin flag is set; `flags` is a room's coin array.
fn all_collected(flags: &[bool]) -> (r: bool)
    ensures
        r == all_set(flags@),
{
    let mut i: usize = 0;
    while i < flags.len()
        invariant
            0 <= i <= flags@.len(),
            forall|j: int| 0 <= j < i ==> #[trigger] flags@[j],
        decreases flags@.len() - i,
    {
        if !flags[i] {
            return false;
        }
        i = i + 1;
    }
    true
}

impl Entryway {
    pub fn all_coins_collected(&self) -> (r: bool)
        ensures
            r == all_set(self.coins@),
    {
        all_collected(self.coins.as_slice())
    }
}

#[derive(Clone, Copy, Debug)]
pub struct Kitchen {
    pub coins: [bool; 3],
    pub weapon_collected: bool,
}

impl Kitchen {
    pub fn all_coins_collected(&self) -> (r: bool)
        ensures
            r == all_set(self.coins@),
    {
        all_collected(self.coins.as_slice())
    }
}

#[derive(Clone, Copy, Debug)]
pub struct LivingRoom {
    pub coins: [bool; 2],
    /// How long the confrontation has lasted, in milliseconds.
    pub dad_attack_millis: u64,
    pub has_escaped_dad: bool,
}

impl LivingRoom {
    pub fn all_coins_collected(&self) -> (r: bool)
        ensures
            r == all_set(self.coins@),
    {
        all_collected(self.coins.as_slice())
    }
}

#[derive(Clone, Copy, PartialEq, Eq, Structural, Debug)]
pub struct MurderLivingRoom {
    pub murderous_intent: bool,
    pub dad_dead: bool,
}

#[derive(Clone, Copy, PartialEq, Eq, Structural, Debug)]
pub struct ChildRoom {
    pub child_stabs: u8,
}

impl ChildRoom {
    pub open spec fn spec_child_dead(self) -> bool {
        self.child_stabs > 0
    }

    pub fn child_dead(&self) -> (r: bool)
        ensures
            r == self.spec_child_dead(),
    {
        self.child_stabs > 0
    }
}

#[derive(Clone, Copy, PartialEq, Eq, Structural, Debug)]
pub enum EndingChosen {
    Ascended,
    Escaped,
}

/// Progress through the story, one record per room.
#[derive(Clone, Copy, Debug)]
pub struct State {
    pub tutorial: Tutorial,
    pub outside: Outside,
    pub entryway: Entryway,
    pub kitchen: Kitchen,
    pub living_room: LivingRoom,
    pub murder_living_room: MurderLivingRoom,
    pub child_room: ChildRoom,
    pub ending_chosen: Option<EndingChosen>,
    /// A requested move to another room, with the player's entry position.
    pub scene_changed: Option<(Unit, Scenes)>,
}

/// No flag set anywhere: the state of a new session.
pub open spec fn is_initial(s: State) -> bool {
    &&& !s.tutorial.coin
    &&& !s.outside.key_collected
    &&& forall|i: int| 0 <= i < 4 ==> !#[trigger] s.entryway.coins@[i]
    &&& forall|i: int| 0 <= i < 3 ==> !#[trigger] s.kitchen.coins@[i]
    &&& !s.kitchen.weapon_collected
    &&& forall|i: int| 0 <= i < 2 ==> !#[trigger] s.living_room.coins@[i]
    &&& s.living_room.dad_attack_millis == 0
    &&& !s.living_room.has_escaped_dad
    &&& !s.murder_living_room.murderous_intent
    &&& !s.murder_living_room.dad_dead
    &&& s.child_room.child_stabs == 0
    &&& s.ending_chosen is None
    &&& s.scene_changed is None
}

/// A coin array with nothing collected.
pub fn no_coins_collected<const N: usize>() -> (r: [bool; N])
    ensures
        forall|i: int| 0 <= i < N ==> !#[trigger] r@[i],
{
    [false; N]
}

impl State {
    pub fn new() -> (r: State)
        ensures
            is_initial(r),
    {
        State {
            tutorial: Tutorial { coin: false },
            outside: Outside { key_collected: false },
            entryway: Entryway { coins: no_coins_collected() },
            kitchen: Kitchen { coins: no_coins_collected(), weapon_collected: false },
            living_room: LivingRoom {
                coins: no_coins_collected(),
                dad_attack_millis: 0,
                has_escaped_dad: false,
            },
            murder_living_room: MurderLivingRoom { murderous_intent: false, dad_dead: false },
            child_room: ChildRoom { child_stabs: 0 },
            ending_chosen: None,
            scene_changed: None,
        }
    }
}

} // verus!
