//! The entity store: an arena whose identifiers are never reused.
use vstd::prelude::*;
use crate::animation::{FrameCount, SpriteAnimation};

verus! {

/// What an entity is, and so which handler its collisions reach.
#[derive(Clone, Copy, PartialEq, Eq, Structural, Debug)]
pub enum Kind {
    Road,
    MoveHint,
    Stone,
    Wall,
    Player,
    Goal,
    ArrowSpawner,
    ArrowArea,
    Arrow,
    WallBlock,
    Door,
    DoorTrigger,
    Key,
}

/// One entity: its kind, its placement and the tag that marks it for the
/// sweep at the next level transition.
#[derive(Clone, Copy, PartialEq, Eq, Structural, Debug)]
pub struct Entity {
    pub kind: Kind,
    pub x: i64,
    pub y: i64,
    /// Rotation about the view axis, in millidegrees.
    pub rotation: u64,
    /// Uniform scale, in permille.
    pub scale: u64,
    /// Which art the entity wears (a stone's image, a hazard's tier).
    pub variant: u64,
    pub destroy_on_new_level: bool,
    pub animation: Option<SpriteAnimation>,
}

/// A stable identifier: the slot an entity was spawned into. Slots are
/// never reused, so an identifier never names a later entity.
#[derive(Clone, Copy, PartialEq, Eq, Structural, Debug)]
pub struct EntityId(pub usize);

/// All entities; a despawned entity leaves an empty slot behind.
pub struct World {
    slots: Vec<Option<Entity>>,
}

/// The slot after the transition sweep.
pub open spec fn swept_slot(o: Option<Entity>) -> Option<Entity> {
    match o {
        Some(e) => if e.destroy_on_new_level {
            None
        } else {
            o
        },
        None => None,
    }
}

/// The slots after the transition sweep.
pub open spec fn swept(s: Seq<Option<Entity>>) -> Seq<Option<Entity>> {
    s.map_values(|o: Option<Entity>| swept_slot(o))
}

/// The entity in slot `id`, if it is alive.
pub open spec fn entity_at(s: Seq<Option<Entity>>, id: EntityId) -> Option<Entity> {
    if id.0 < s.len() {
        s[id.0 as int]
    } else {
        None
    }
}

/// The slot after removing `id`.
pub open spec fn without(s: Seq<Option<Entity>>, id: EntityId) -> Seq<Option<Entity>> {
    if id.0 < s.len() {
        s.update(id.0 as int, None)
    } else {
        s
    }
}

/// The kind in each slot, or nothing for an empty one.
pub open spec fn census(s: Seq<Option<Entity>>) -> Seq<Option<Kind>> {
    s.map_values(
        |o: Option<Entity>|
            match o {
                Some(e) => Some(e.kind),
                None => None,
            },
    )
}

impl View for World {
    type V = Seq<Option<Entity>>;

    closed spec fn view(&self) -> Seq<Option<Entity>> {
        self.slots@
    }
}

impl World {
    /// An empty world.
    pub fn new() -> (r: World)
        ensures
            r@ == Seq::<Option<Entity>>::empty(),
    {
        World { slots: Vec::new() }
    }

    /// The number of slots ever used.
    pub fn len(&self) -> (r: usize)
        ensures
            r == self@.len(),
    {
        self.slots.len()
    }

    /// The entity named `id`, if it is alive.
    pub fn get(&self, id: EntityId) -> (r: Option<Entity>)
        ensures
            r == entity_at(self@, id),
    {
        if id.0 < self.slots.len() {
            self.slots[id.0]
        } else {
            None
        }
    }

    /// Adds an entity under a fresh identifier.
    pub fn spawn(&mut self, e: Entity) -> (id: EntityId)
        ensures
            final(self)@ == old(self)@.push(Some(e)),
            id.0 == old(self)@.len(),
    {
        let id = EntityId(self.slots.len());
        self.slots.push(Some(e));
        id
    }

    /// Removes the entity named `id`; nothing happens if it is not alive.
    pub fn despawn(&mut self, id: EntityId)
        ensures
            final(self)@ == without(old(self)@, id),
    {
        if id.0 < self.slots.len() {
            self.slots[id.0] = None;
        }
    }

    /// Moves the entity named `id`; nothing happens if it is not alive.
    /// Positions come from the physics collaborator.
    pub fn set_position(&mut self, id: EntityId, x: i64, y: i64)
        ensures
            final(self)@ == match entity_at(old(self)@, id) {
                Some(e) => old(self)@.update(id.0 as int, Some(Entity { x, y, ..e })),
                None => old(self)@,
            },
    {
        if id.0 < self.slots.len() {
            match self.slots[id.0] {
                Some(e) => {
                    self.slots[id.0] = Some(Entity { x, y, ..e });
                },
                None => {},
            }
        }
    }

    /// Replaces the live entity in slot `i`.
    pub(crate) fn replace(&mut self, i: usize, e: Entity)
        requires
            i < old(self)@.len(),
        ensures
            final(self)@ == old(self)@.update(i as int, Some(e)),
    {
        self.slots[i] = Some(e);
    }

    /// Destroys every entity tagged for destruction on a new level.
    pub fn despawn_tagged(&mut self)
        ensures
            final(self)@ == swept(old(self)@),
    {
        let n = self.slots.len();
        let mut i: usize = 0;
        while i < n
            invariant
                n == old(self)@.len(),
                self.slots@.len() == n,
                0 <= i <= n,
                forall|j: int| 0 <= j < i ==> self.slots@[j] == swept_slot(old(self)@[j]),
                forall|j: int| i <= j < n ==> self.slots@[j] == old(self)@[j],
            decreases n - i,
        {
            match self.slots[i] {
                Some(e) => {
                    if e.destroy_on_new_level {
                        self.slots[i] = None;
                    }
                },
                None => {},
            }
            i = i + 1;
        }
        assert(self.slots@ =~= swept(old(self)@));
    }

    /// The identifier of the one live player, if exactly one lives.
    pub fn sole_player(&self) -> (r: Option<EntityId>)
        ensures
            r == sole_player(self@),
    {
        self.sole_of_kind(Kind::Player)
    }

    /// The identifier of the one live entity of kind `k`, if exactly one
    /// lives.
    pub fn sole_of_kind(&self, k: Kind) -> (r: Option<EntityId>)
        ensures
            r == sole_of(self@, k),
    {
        let n = self.slots.len();
        let mut found: Option<EntityId> = None;
        let mut i: usize = 0;
        while i < n
            invariant
                n == self@.len(),
                0 <= i <= n,
                found is None ==> forall|j: int| 0 <= j < i ==> !is_kind_slot(self@, k, j),
                found matches Some(f) ==> f.0 < i && is_kind_slot(self@, k, f.0 as int) && forall|j: int|
                    0 <= j < i && j != f.0 ==> !is_kind_slot(self@, k, j),
            decreases n - i,
        {
            let here = match self.slots[i] {
                Some(e) => e.kind == k,
                None => false,
            };
            if here {
                if found.is_some() {
                    assert(is_kind_slot(self@, k, i as int));
                    assert forall|m: int| 0 <= m < self@.len() implies !is_sole_of(self@, k, m) by {
                        if m != i as int {
                            assert(is_kind_slot(self@, k, i as int));
                        } else {
                            assert(is_kind_slot(self@, k, found.unwrap().0 as int));
                        }
                    }
                    return None;
                }
                found = Some(EntityId(i));
            }
            i = i + 1;
        }
        match found {
            Some(f) => {
                assert(is_sole_of(self@, k, f.0 as int));
            },
            None => {},
        }
        found
    }
}

/// Slot `i` holds a live entity of kind `k`.
pub open spec fn is_kind_slot(s: Seq<Option<Entity>>, k: Kind, i: int) -> bool {
    0 <= i < s.len() && (s[i] matches Some(e) && e.kind == k)
}

/// Slot `i` holds the only live entity of kind `k`.
pub open spec fn is_sole_of(s: Seq<Option<Entity>>, k: Kind, i: int) -> bool {
    is_kind_slot(s, k, i) && forall|j: int| #[trigger] is_kind_slot(s, k, j) ==> j == i
}

/// The identifier of the one live entity of kind `k`, if exactly one lives.
pub open spec fn sole_of(s: Seq<Option<Entity>>, k: Kind) -> Option<EntityId> {
    if exists|i: int| is_sole_of(s, k, i) {
        Some(EntityId((choose|i: int| is_sole_of(s, k, i)) as usize))
    } else {
        None
    }
}

/// The identifier of the one live player, if exactly one lives.
pub open spec fn sole_player(s: Seq<Option<Entity>>) -> Option<EntityId> {
    sole_of(s, Kind::Player)
}

/// Some live entity is of kind `k`.
pub open spec fn has_kind(s: Seq<Option<Entity>>, k: Kind) -> bool {
    exists|i: int| 0 <= i < s.len() && (#[trigger] s[i] matches Some(e) && e.kind == k)
}

impl World {
    /// The first live entity of kind `k`, if any lives.
    pub fn find_kind(&self, k: Kind) -> (r: Option<EntityId>)
        ensures
            r is None <==> !has_kind(self@, k),
            r matches Some(id) ==> (entity_at(self@, id) matches Some(e) && e.kind == k),
    {
        let n = self.slots.len();
        let mut i: usize = 0;
        while i < n
            invariant
                n == self@.len(),
                0 <= i <= n,
                forall|j: int| 0 <= j < i ==> !(#[trigger] self@[j] matches Some(e) && e.kind == k),
            decreases n - i,
        {
            match self.slots[i] {
                Some(e) => {
                    if e.kind == k {
                        return Some(EntityId(i));
                    }
                },
                None => {},
            }
            i = i + 1;
        }
        None
    }
}


/// Every live animation has a running timer and a usable frame count.
pub open spec fn animations_wf(s: Seq<Option<Entity>>) -> bool {
    forall|i: int| 0 <= i < s.len() ==> slot_wf(#[trigger] s[i])
}

pub open spec fn slot_wf(o: Option<Entity>) -> bool {
    o matches Some(e) ==> (e.animation matches Some(a) ==> a.wf())
}

/// The length of the atlas layout a sprite reads its frames from; nothing
/// for a layout that is not loaded yet, or for a fixed frame count.
pub open spec fn layout_len(a: SpriteAnimation, atlas_lens: Seq<usize>) -> usize {
    match a.frames {
        FrameCount::FromAtlas(l) => if l < atlas_lens.len() {
            atlas_lens[l as int]
        } else {
            0
        },
        FrameCount::Fixed(_) => 0,
    }
}

/// The slot after `dt_us` more microseconds of animation.
pub open spec fn animated_slot(o: Option<Entity>, dt_us: u64, atlas_lens: Seq<usize>) -> Option<Entity> {
    match o {
        Some(e) => match e.animation {
            Some(a) => Some(Entity { animation: Some(a.after(dt_us, layout_len(a, atlas_lens))), ..e }),
            None => o,
        },
        None => o,
    }
}

impl World {
    /// Advances every animated entity independently by `dt_us`; a sprite
    /// whose frames come from atlas layout `l` has `atlas_lens[l]` of them.
    pub fn update_animations(&mut self, dt_us: u64, atlas_lens: &Vec<usize>)
        requires
            animations_wf(old(self)@),
        ensures
            final(self)@ == old(self)@.map_values(|o: Option<Entity>| animated_slot(o, dt_us, atlas_lens@)),
            animations_wf(final(self)@),
    {
        let n = self.slots.len();
        let mut i: usize = 0;
        while i < n
            invariant
                n == old(self)@.len(),
                self@.len() == n,
                0 <= i <= n,
                animations_wf(old(self)@),
                forall|j: int| 0 <= j < i ==> self@[j] == animated_slot(old(self)@[j], dt_us, atlas_lens@),
                forall|j: int| 0 <= j < i ==> slot_wf(#[trigger] self@[j]),
                forall|j: int| i <= j < n ==> self@[j] == old(self)@[j],
            decreases n - i,
        {
            assert(slot_wf(old(self)@[i as int]));
            match self.slots[i] {
                Some(e) => match e.animation {
                    Some(a) => {
                        let len = match a.frames {
                            FrameCount::FromAtlas(l) => if l < atlas_lens.len() {
                                atlas_lens[l]
                            } else {
                                0
                            },
                            FrameCount::Fixed(_) => 0,
                        };
                        let mut a = a;
                        a.tick(dt_us, len);
                        self.slots[i] = Some(Entity { animation: Some(a), ..e });
                    },
                    None => {},
                },
                None => {},
            }
            i = i + 1;
        }
        assert(self@ =~= old(self)@.map_values(|o: Option<Entity>| animated_slot(o, dt_us, atlas_lens@)));
    }
}

} // verus!
