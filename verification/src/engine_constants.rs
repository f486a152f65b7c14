//! The engine's constants: player defaults, physics parameters, animation
//! frames and the size of every texture sheet the assets ship.

use vstd::prelude::*;

use crate::common::{Direction, Rect};

verus! {

/// Movement parameters, in 1/512 pixel per tick.
#[derive(Debug, Copy, Clone)]
pub struct PhysicsConsts {
    pub max_dash: isize,
    pub max_move: isize,
    pub gravity_ground: isize,
    pub gravity_air: isize,
    pub dash_ground: isize,
    pub dash_air: isize,
    pub resist: isize,
    pub jump: isize,
}

/// The impulses of the second booster, one per direction.
#[derive(Debug, Copy, Clone)]
pub struct BoosterConsts {
    pub b2_0_up: isize,
    pub b2_0_up_nokey: isize,
    pub b2_0_down: isize,
    pub b2_0_left: isize,
    pub b2_0_right: isize,
}

/// What the player starts with.
#[derive(Debug, Copy, Clone)]
pub struct MyCharConsts {
    pub cond: u16,
    pub flags: u32,
    pub equip: u16,
    pub direction: Direction,
    pub view: Rect<usize>,
    pub hit: Rect<usize>,
    pub life: u16,
    pub max_life: u16,
    pub unit: u8,
    pub air_physics: PhysicsConsts,
    pub water_physics: PhysicsConsts,
    pub animations_left: [Rect<usize>; 12],
    pub animations_right: [Rect<usize>; 12],
}

/// What a list of named sizes says, read front to back: a later entry
/// replaces an earlier one of the same name.
pub open spec fn sizes_of(entries: Seq<(String, (usize, usize))>) -> Map<Seq<char>, (usize, usize)>
    decreases entries.len(),
{
    if entries.len() == 0 {
        Map::empty()
    } else {
        sizes_of(entries.drop_last()).insert(entries.last().0@, entries.last().1)
    }
}

proof fn lemma_sizes_of_absent(entries: Seq<(String, (usize, usize))>, name: Seq<char>)
    requires
        forall|i: int| 0 <= i < entries.len() ==> (#[trigger] entries[i]).0@ != name,
    ensures
        !sizes_of(entries).contains_key(name),
    decreases entries.len(),
{
    if entries.len() > 0 {
        let front = entries.drop_last();
        assert forall|i: int| 0 <= i < front.len() implies (#[trigger] front[i]).0@ != name by {
            assert(front[i] == entries[i]);
        }
        lemma_sizes_of_absent(front, name);
        assert(entries.last() == entries[entries.len() - 1]);
    }
}

proof fn lemma_sizes_of_last_match(entries: Seq<(String, (usize, usize))>, at: int)
    requires
        0 <= at < entries.len(),
        forall|j: int| at < j < entries.len() ==> (#[trigger] entries[j]).0@ != entries[at].0@,
    ensures
        sizes_of(entries).contains_key(entries[at].0@),
        sizes_of(entries)[entries[at].0@] == entries[at].1,
    decreases entries.len(),
{
    if at < entries.len() - 1 {
        let front = entries.drop_last();
        assert(front[at] == entries[at]);
        assert forall|j: int| at < j < front.len() implies (#[trigger] front[j]).0@ != front[at].0@ by {
            assert(front[j] == entries[j]);
        }
        lemma_sizes_of_last_match(front, at);
        assert(entries.last() == entries[entries.len() - 1]);
    }
}

proof fn lemma_sizes_of_replace(
    entries: Seq<(String, (usize, usize))>,
    at: int,
    entry: (String, (usize, usize)),
)
    requires
        0 <= at < entries.len(),
        entries[at].0@ == entry.0@,
        forall|j: int| at < j < entries.len() ==> (#[trigger] entries[j]).0@ != entry.0@,
    ensures
        sizes_of(entries.update(at, entry)) == sizes_of(entries).insert(entry.0@, entry.1),
    decreases entries.len(),
{
    let after = entries.update(at, entry);
    let front = entries.drop_last();
    if at == entries.len() - 1 {
        assert(after.drop_last() =~= front);
    } else {
        assert(front[at] == entries[at]);
        assert forall|j: int| at < j < front.len() implies (#[trigger] front[j]).0@ != entry.0@ by {
            assert(front[j] == entries[j]);
        }
        lemma_sizes_of_replace(front, at, entry);
        assert(after.drop_last() =~= front.update(at, entry));
        assert(entries.last() == entries[entries.len() - 1]);
    }
    assert(sizes_of(after) =~= sizes_of(entries).insert(entry.0@, entry.1));
}

/// The width and height in pixels of each texture sheet, by asset name.
///
/// The sizes are kept in the order in which their names were first
/// recorded. A size that is recorded again takes the place of the last
/// entry of its name.
#[derive(Debug)]
pub struct TextureSizes {
    entries: Vec<(String, (usize, usize))>,
}

impl View for TextureSizes {
    type V = Map<Seq<char>, (usize, usize)>;

    closed spec fn view(&self) -> Map<Seq<char>, (usize, usize)> {
        sizes_of(self.entries@)
    }
}

impl TextureSizes {
    /// A catalogue without an entry.
    pub fn new() -> (sizes: TextureSizes)
        ensures
            sizes@ == Map::<Seq<char>, (usize, usize)>::empty(),
    {
        TextureSizes { entries: Vec::new() }
    }

    /// Where the entry that counts for `name` stands, if there is one.
    fn position(&self, name: &String) -> (at: Option<usize>)
        ensures
            match at {
                Some(i) => {
                    &&& i < self.entries.len()
                    &&& self.entries[i as int].0@ == name@
                    &&& forall|j: int|
                        i < j < self.entries.len() ==> (#[trigger] self.entries[j]).0@ != name@
                },
                None => forall|j: int|
                    0 <= j < self.entries.len() ==> (#[trigger] self.entries[j]).0@ != name@,
            },
    {
        let mut i: usize = self.entries.len();
        while i > 0
            invariant
                i <= self.entries.len(),
                forall|j: int| i <= j < self.entries.len() ==> (#[trigger] self.entries[j]).0@ != name@,
            decreases i,
        {
            i -= 1;
            if self.entries[i].0 == *name {
                return Some(i);
            }
        }
        None
    }

    /// The size recorded for `name`.
    pub fn get(&self, name: &str) -> (size: Option<(usize, usize)>)
        ensures
            size == if self@.contains_key(name@) {
                Some(self@[name@])
            } else {
                None
            },
    {
        let key = name.to_owned();
        match self.position(&key) {
            Some(i) => {
                proof {
                    lemma_sizes_of_last_match(self.entries@, i as int);
                }
                Some(self.entries[i].1)
            },
            None => {
                proof {
                    lemma_sizes_of_absent(self.entries@, name@);
                }
                None
            },
        }
    }

    /// Whether a size is recorded for `name`.
    pub fn contains_key(&self, name: &str) -> (found: bool)
        ensures
            found == self@.contains_key(name@),
    {
        self.get(name).is_some()
    }

    /// Records `size` for `name`, in place of what was recorded before.
    pub fn insert(&mut self, name: &str, size: (usize, usize))
        ensures
            final(self)@ == old(self)@.insert(name@, size),
    {
        let key = name.to_owned();
        match self.position(&key) {
            Some(i) => {
                proof {
                    lemma_sizes_of_replace(self.entries@, i as int, (key, size));
                }
                self.entries[i] = (key, size);
            },
            None => {
                assert(self.entries@.push((key, size)).drop_last() =~= self.entries@);
                self.entries.push((key, size));
            },
        }
    }

    fn add_common_sheets(&mut self)
        ensures
            final(self)@ == with_common_sheets(old(self)@),
    {
        self.insert("ArmsImage", (256, 16));
        self.insert("Arms", (320, 200));
        self.insert("bk0", (64, 64));
        self.insert("bkBlack", (64, 64));
        self.insert("bkBlue", (64, 64));
        self.insert("bkFall", (64, 64));
        self.insert("bkFog", (320, 240));
        self.insert("bkFog480fix", (480, 272));
        self.insert("bkGard", (48, 64));
        self.insert("bkGray", (64, 64));
        self.insert("bkGreen", (64, 64));
        self.insert("bkHellish", (320, 240));
        self.insert("bkHellish480fix", (480, 272));
        self.insert("bkLight", (320, 240));
        self.insert("bkLight480fix", (480, 272));
        self.insert("bkMaze", (64, 64));
        self.insert("bkMoon", (320, 240));
        self.insert("bkMoon480fix", (480, 272));
        self.insert("bkRed", (32, 32));
        self.insert("bkSunset", (320, 240));
        self.insert("bkSunset480fix", (480, 272));
        self.insert("bkWater", (32, 48));
        self.insert("Bullet", (320, 176));
        self.insert("Caret", (320, 240));
        self.insert("casts", (320, 240));
        self.insert("Face", (288, 240));
        self.insert("Face_0", (288, 240));
        self.insert("Face_1", (288, 240));
        self.insert("Face_2", (288, 240));
        self.insert("Fade", (256, 32));
        self.insert("ItemImage", (256, 128));
        self.insert("Loading", (64, 8));
        self.insert("MyChar", (200, 64));
    }

    fn add_npc_sheets(&mut self)
        ensures
            final(self)@ == with_npc_sheets(old(self)@),
    {
        self.insert("Npc/Npc0", (32, 32));
        self.insert("Npc/NpcAlmo1", (320, 240));
        self.insert("Npc/NpcAlmo2", (320, 240));
        self.insert("Npc/NpcBallos", (320, 240));
        self.insert("Npc/NpcBllg", (320, 96));
        self.insert("Npc/NpcCemet", (320, 112));
        self.insert("Npc/NpcCent", (320, 192));
        self.insert("Npc/NpcCurly", (256, 80));
        self.insert("Npc/NpcDark", (160, 64));
        self.insert("Npc/NpcDr", (320, 240));
        self.insert("Npc/NpcEggs1", (320, 112));
        self.insert("Npc/NpcEggs2", (320, 128));
        self.insert("Npc/NpcFrog", (320, 240));
        self.insert("Npc/NpcGuest", (320, 184));
        self.insert("Npc/NpcHell", (320, 160));
        self.insert("Npc/NpcHeri", (320, 128));
        self.insert("Npc/NpcIronH", (320, 72));
        self.insert("Npc/NpcIsland", (320, 80));
        self.insert("Npc/NpcKings", (96, 48));
        self.insert("Npc/NpcMaze", (320, 192));
        self.insert("Npc/NpcMiza", (320, 240));
        self.insert("Npc/NpcMoon", (320, 128));
        self.insert("Npc/NpcOmg", (320, 120));
        self.insert("Npc/NpcPlant", (320, 48));
        self.insert("Npc/NpcPress", (320, 240));
        self.insert("Npc/NpcPriest", (320, 240));
        self.insert("Npc/NpcRavil", (320, 168));
        self.insert("Npc/NpcRed", (320, 144));
        self.insert("Npc/NpcRegu", (320, 240));
        self.insert("Npc/NpcSand", (320, 176));
        self.insert("Npc/NpcStream", (64, 32));
        self.insert("Npc/NpcSym", (320, 240));
        self.insert("Npc/NpcToro", (320, 144));
        self.insert("Npc/NpcTwinD", (320, 144));
        self.insert("Npc/NpcWeed", (320, 240));
        self.insert("Npc/NpcX", (320, 240));
    }

    fn add_resource_bitmaps(&mut self)
        ensures
            final(self)@ == with_resource_bitmaps(old(self)@),
    {
        self.insert("Resource/BITMAP/Credit01", (160, 240));
        self.insert("Resource/BITMAP/Credit02", (160, 240));
        self.insert("Resource/BITMAP/Credit03", (160, 240));
        self.insert("Resource/BITMAP/Credit04", (160, 240));
        self.insert("Resource/BITMAP/Credit05", (160, 240));
        self.insert("Resource/BITMAP/Credit06", (160, 240));
        self.insert("Resource/BITMAP/Credit07", (160, 240));
        self.insert("Resource/BITMAP/Credit08", (160, 240));
        self.insert("Resource/BITMAP/Credit09", (160, 240));
        self.insert("Resource/BITMAP/Credit10", (160, 240));
        self.insert("Resource/BITMAP/Credit11", (160, 240));
        self.insert("Resource/BITMAP/Credit12", (160, 240));
        self.insert("Resource/BITMAP/Credit14", (160, 240));
        self.insert("Resource/BITMAP/Credit15", (160, 240));
        self.insert("Resource/BITMAP/Credit16", (160, 240));
        self.insert("Resource/BITMAP/Credit17", (160, 240));
        self.insert("Resource/BITMAP/Credit18", (160, 240));
        self.insert("Resource/BITMAP/pixel", (160, 16));
        self.insert("Resource/CURSOR/CURSOR_IKA", (32, 32));
        self.insert("Resource/CURSOR/CURSOR_NORMAL", (32, 32));
    }

    fn add_stage_tiles(&mut self)
        ensures
            final(self)@ == with_stage_tiles(old(self)@),
    {
        self.insert("StageImage", (256, 16));
        self.insert("Stage/Prt0", (32, 32));
        self.insert("Stage/PrtAlmond", (256, 96));
        self.insert("Stage/PrtBarr", (256, 88));
        self.insert("Stage/PrtCave", (256, 80));
        self.insert("Stage/PrtCent", (256, 128));
        self.insert("Stage/PrtEggIn", (256, 80));
        self.insert("Stage/PrtEggs", (256, 240));
        self.insert("Stage/PrtEggX", (256, 240));
        self.insert("Stage/PrtFall", (256, 128));
        self.insert("Stage/PrtGard", (256, 97));
        self.insert("Stage/PrtHell", (256, 240));
        self.insert("Stage/PrtJail", (256, 128));
        self.insert("Stage/PrtLabo", (128, 64));
        self.insert("Stage/PrtMaze", (256, 160));
        self.insert("Stage/PrtMimi", (256, 160));
        self.insert("Stage/PrtOside", (256, 64));
        self.insert("Stage/PrtPens", (256, 64));
        self.insert("Stage/PrtRiver", (256, 96));
        self.insert("Stage/PrtSand", (256, 112));
        self.insert("Stage/PrtStore", (256, 112));
        self.insert("Stage/PrtWeed", (256, 128));
        self.insert("Stage/PrtWhite", (256, 240));
    }

    fn add_dialog_sheets(&mut self)
        ensures
            final(self)@ == with_dialog_sheets(old(self)@),
    {
        self.insert("TextBox", (244, 144));
        self.insert("Title", (320, 48));
    }
}

impl Clone for TextureSizes {
    fn clone(&self) -> (copy: TextureSizes)
        ensures
            copy@ == self@,
    {
        let mut entries: Vec<(String, (usize, usize))> = Vec::new();
        let mut i: usize = 0;
        while i < self.entries.len()
            invariant
                i <= self.entries.len(),
                entries@ == self.entries@.take(i as int),
            decreases self.entries.len() - i,
        {
            entries.push((self.entries[i].0.clone(), self.entries[i].1));
            assert(self.entries@.take(i + 1) =~= self.entries@.take(i as int).push(self.entries@[i as int]));
            i += 1;
        }
        assert(self.entries@.take(i as int) =~= self.entries@);
        TextureSizes { entries }
    }
}

/// The sheets every stage uses: weapons, backgrounds, bullets, faces and the player.
pub open spec fn with_common_sheets(sizes: Map<Seq<char>, (usize, usize)>) -> Map<Seq<char>, (usize, usize)> {
    sizes
        .insert("ArmsImage"@, (256usize, 16usize))
        .insert("Arms"@, (320usize, 200usize))
        .insert("bk0"@, (64usize, 64usize))
        .insert("bkBlack"@, (64usize, 64usize))
        .insert("bkBlue"@, (64usize, 64usize))
        .insert("bkFall"@, (64usize, 64usize))
        .insert("bkFog"@, (320usize, 240usize))
        .insert("bkFog480fix"@, (480usize, 272usize))
        .insert("bkGard"@, (48usize, 64usize))
        .insert("bkGray"@, (64usize, 64usize))
        .insert("bkGreen"@, (64usize, 64usize))
        .insert("bkHellish"@, (320usize, 240usize))
        .insert("bkHellish480fix"@, (480usize, 272usize))
        .insert("bkLight"@, (320usize, 240usize))
        .insert("bkLight480fix"@, (480usize, 272usize))
        .insert("bkMaze"@, (64usize, 64usize))
        .insert("bkMoon"@, (320usize, 240usize))
        .insert("bkMoon480fix"@, (480usize, 272usize))
        .insert("bkRed"@, (32usize, 32usize))
        .insert("bkSunset"@, (320usize, 240usize))
        .insert("bkSunset480fix"@, (480usize, 272usize))
        .insert("bkWater"@, (32usize, 48usize))
        .insert("Bullet"@, (320usize, 176usize))
        .insert("Caret"@, (320usize, 240usize))
        .insert("casts"@, (320usize, 240usize))
        .insert("Face"@, (288usize, 240usize))
        .insert("Face_0"@, (288usize, 240usize))
        .insert("Face_1"@, (288usize, 240usize))
        .insert("Face_2"@, (288usize, 240usize))
        .insert("Fade"@, (256usize, 32usize))
        .insert("ItemImage"@, (256usize, 128usize))
        .insert("Loading"@, (64usize, 8usize))
        .insert("MyChar"@, (200usize, 64usize))
}

/// The character atlases, one per area.
pub open spec fn with_npc_sheets(sizes: Map<Seq<char>, (usize, usize)>) -> Map<Seq<char>, (usize, usize)> {
    sizes
        .insert("Npc/Npc0"@, (32usize, 32usize))
        .insert("Npc/NpcAlmo1"@, (320usize, 240usize))
        .insert("Npc/NpcAlmo2"@, (320usize, 240usize))
        .insert("Npc/NpcBallos"@, (320usize, 240usize))
        .insert("Npc/NpcBllg"@, (320usize, 96usize))
        .insert("Npc/NpcCemet"@, (320usize, 112usize))
        .insert("Npc/NpcCent"@, (320usize, 192usize))
        .insert("Npc/NpcCurly"@, (256usize, 80usize))
        .insert("Npc/NpcDark"@, (160usize, 64usize))
        .insert("Npc/NpcDr"@, (320usize, 240usize))
        .insert("Npc/NpcEggs1"@, (320usize, 112usize))
        .insert("Npc/NpcEggs2"@, (320usize, 128usize))
        .insert("Npc/NpcFrog"@, (320usize, 240usize))
        .insert("Npc/NpcGuest"@, (320usize, 184usize))
        .insert("Npc/NpcHell"@, (320usize, 160usize))
        .insert("Npc/NpcHeri"@, (320usize, 128usize))
        .insert("Npc/NpcIronH"@, (320usize, 72usize))
        .insert("Npc/NpcIsland"@, (320usize, 80usize))
        .insert("Npc/NpcKings"@, (96usize, 48usize))
        .insert("Npc/NpcMaze"@, (320usize, 192usize))
        .insert("Npc/NpcMiza"@, (320usize, 240usize))
        .insert("Npc/NpcMoon"@, (320usize, 128usize))
        .insert("Npc/NpcOmg"@, (320usize, 120usize))
        .insert("Npc/NpcPlant"@, (320usize, 48usize))
        .insert("Npc/NpcPress"@, (320usize, 240usize))
        .insert("Npc/NpcPriest"@, (320usize, 240usize))
        .insert("Npc/NpcRavil"@, (320usize, 168usize))
        .insert("Npc/NpcRed"@, (320usize, 144usize))
        .insert("Npc/NpcRegu"@, (320usize, 240usize))
        .insert("Npc/NpcSand"@, (320usize, 176usize))
        .insert("Npc/NpcStream"@, (64usize, 32usize))
        .insert("Npc/NpcSym"@, (320usize, 240usize))
        .insert("Npc/NpcToro"@, (320usize, 144usize))
        .insert("Npc/NpcTwinD"@, (320usize, 144usize))
        .insert("Npc/NpcWeed"@, (320usize, 240usize))
        .insert("Npc/NpcX"@, (320usize, 240usize))
}

/// The credit illustrations and the cursors.
pub open spec fn with_resource_bitmaps(sizes: Map<Seq<char>, (usize, usize)>) -> Map<Seq<char>, (usize, usize)> {
    sizes
        .insert("Resource/BITMAP/Credit01"@, (160usize, 240usize))
        .insert("Resource/BITMAP/Credit02"@, (160usize, 240usize))
        .insert("Resource/BITMAP/Credit03"@, (160usize, 240usize))
        .insert("Resource/BITMAP/Credit04"@, (160usize, 240usize))
        .insert("Resource/BITMAP/Credit05"@, (160usize, 240usize))
        .insert("Resource/BITMAP/Credit06"@, (160usize, 240usize))
        .insert("Resource/BITMAP/Credit07"@, (160usize, 240usize))
        .insert("Resource/BITMAP/Credit08"@, (160usize, 240usize))
        .insert("Resource/BITMAP/Credit09"@, (160usize, 240usize))
        .insert("Resource/BITMAP/Credit10"@, (160usize, 240usize))
        .insert("Resource/BITMAP/Credit11"@, (160usize, 240usize))
        .insert("Resource/BITMAP/Credit12"@, (160usize, 240usize))
        .insert("Resource/BITMAP/Credit14"@, (160usize, 240usize))
        .insert("Resource/BITMAP/Credit15"@, (160usize, 240usize))
        .insert("Resource/BITMAP/Credit16"@, (160usize, 240usize))
        .insert("Resource/BITMAP/Credit17"@, (160usize, 240usize))
        .insert("Resource/BITMAP/Credit18"@, (160usize, 240usize))
        .insert("Resource/BITMAP/pixel"@, (160usize, 16usize))
        .insert("Resource/CURSOR/CURSOR_IKA"@, (32usize, 32usize))
        .insert("Resource/CURSOR/CURSOR_NORMAL"@, (32usize, 32usize))
}

/// The stage name strip and the tile sets.
pub open spec fn with_stage_tiles(sizes: Map<Seq<char>, (usize, usize)>) -> Map<Seq<char>, (usize, usize)> {
    sizes
        .insert("StageImage"@, (256usize, 16usize))
        .insert("Stage/Prt0"@, (32usize, 32usize))
        .insert("Stage/PrtAlmond"@, (256usize, 96usize))
        .insert("Stage/PrtBarr"@, (256usize, 88usize))
        .insert("Stage/PrtCave"@, (256usize, 80usize))
        .insert("Stage/PrtCent"@, (256usize, 128usize))
        .insert("Stage/PrtEggIn"@, (256usize, 80usize))
        .insert("Stage/PrtEggs"@, (256usize, 240usize))
        .insert("Stage/PrtEggX"@, (256usize, 240usize))
        .insert("Stage/PrtFall"@, (256usize, 128usize))
        .insert("Stage/PrtGard"@, (256usize, 97usize))
        .insert("Stage/PrtHell"@, (256usize, 240usize))
        .insert("Stage/PrtJail"@, (256usize, 128usize))
        .insert("Stage/PrtLabo"@, (128usize, 64usize))
        .insert("Stage/PrtMaze"@, (256usize, 160usize))
        .insert("Stage/PrtMimi"@, (256usize, 160usize))
        .insert("Stage/PrtOside"@, (256usize, 64usize))
        .insert("Stage/PrtPens"@, (256usize, 64usize))
        .insert("Stage/PrtRiver"@, (256usize, 96usize))
        .insert("Stage/PrtSand"@, (256usize, 112usize))
        .insert("Stage/PrtStore"@, (256usize, 112usize))
        .insert("Stage/PrtWeed"@, (256usize, 128usize))
        .insert("Stage/PrtWhite"@, (256usize, 240usize))
}

/// The text box and the title screen.
pub open spec fn with_dialog_sheets(sizes: Map<Seq<char>, (usize, usize)>) -> Map<Seq<char>, (usize, usize)> {
    sizes
        .insert("TextBox"@, (244usize, 144usize))
        .insert("Title"@, (320usize, 48usize))
}

/// The size of every texture sheet that ships with the game.
pub open spec fn default_tex_sizes() -> Map<Seq<char>, (usize, usize)> {
    with_dialog_sheets(
        with_stage_tiles(
            with_resource_bitmaps(with_npc_sheets(with_common_sheets(Map::empty()))),
        ),
    )
}

/// One pixel in the engine's fixed-point unit.
pub const PIXEL: usize = 0x200;

/// The column on the player sheet of each of the twelve animation frames.
pub open spec fn frame_columns() -> Seq<int> {
    seq![0, 1, 0, 2, 0, 3, 4, 3, 5, 3, 6, 7]
}

/// The 16 by 16 cell at `column` and `row` of a sprite sheet.
pub open spec fn sheet_cell(column: int, row: int) -> Rect<usize> {
    Rect {
        left: (16 * column) as usize,
        top: (16 * row) as usize,
        right: (16 * column + 16) as usize,
        bottom: (16 * row + 16) as usize,
    }
}

/// How the player moves through air.
pub open spec fn air_physics() -> PhysicsConsts {
    PhysicsConsts {
        max_dash: 0x32c,
        max_move: 0x5ff,
        gravity_ground: 0x50,
        gravity_air: 0x20,
        dash_ground: 0x55,
        dash_air: 0x20,
        resist: 0x33,
        jump: 0x500,
    }
}

/// Every parameter cut in half, rounding down: water slows all motion alike.
pub open spec fn halved(physics: PhysicsConsts) -> PhysicsConsts {
    PhysicsConsts {
        max_dash: (physics.max_dash / 2) as isize,
        max_move: (physics.max_move / 2) as isize,
        gravity_ground: (physics.gravity_ground / 2) as isize,
        gravity_air: (physics.gravity_air / 2) as isize,
        dash_ground: (physics.dash_ground / 2) as isize,
        dash_air: (physics.dash_air / 2) as isize,
        resist: (physics.resist / 2) as isize,
        jump: (physics.jump / 2) as isize,
    }
}

/// All constants of the engine.
#[derive(Debug)]
pub struct EngineConstants {
    pub my_char: MyCharConsts,
    pub booster: BoosterConsts,
    pub tex_sizes: TextureSizes,
}

impl Clone for EngineConstants {
    fn clone(&self) -> (copy: EngineConstants)
        ensures
            copy.my_char == self.my_char,
            copy.booster == self.booster,
            copy.tex_sizes@ == self.tex_sizes@,
    {
        EngineConstants {
            my_char: self.my_char,
            booster: self.booster,
            tex_sizes: self.tex_sizes.clone(),
        }
    }
}

impl EngineConstants {
    /// The constants of the unmodified game.
    pub fn defaults() -> (consts: EngineConstants)
        ensures
            consts.my_char.cond == 0x80,
            consts.my_char.flags == 0,
            consts.my_char.equip == 0,
            consts.my_char.direction == Direction::Right,
            consts.my_char.view == (Rect::<usize> {
                left: (8 * PIXEL) as usize,
                top: (8 * PIXEL) as usize,
                right: (8 * PIXEL) as usize,
                bottom: (8 * PIXEL) as usize,
            }),
            consts.my_char.hit == (Rect::<usize> {
                left: (5 * PIXEL) as usize,
                top: (8 * PIXEL) as usize,
                right: (5 * PIXEL) as usize,
                bottom: (8 * PIXEL) as usize,
            }),
            consts.my_char.life == 3,
            consts.my_char.max_life == 3,
            consts.my_char.unit == 0,
            consts.my_char.air_physics == air_physics(),
            consts.my_char.water_physics == halved(air_physics()),
            forall|i: int|
                0 <= i < 12 ==> #[trigger] consts.my_char.animations_left[i] == sheet_cell(
                    frame_columns()[i],
                    0,
                ),
            forall|i: int|
                0 <= i < 12 ==> #[trigger] consts.my_char.animations_right[i] == sheet_cell(
                    frame_columns()[i],
                    1,
                ),
            consts.booster.b2_0_up == -0x5ff,
            consts.booster.b2_0_up_nokey == -0x5ff,
            consts.booster.b2_0_down == 0x5ff,
            consts.booster.b2_0_left == -0x5ff,
            consts.booster.b2_0_right == 0x5ff,
            consts.tex_sizes@ == default_tex_sizes(),
    {
        let mut tex_sizes = TextureSizes::new();
        tex_sizes.add_common_sheets();
        tex_sizes.add_npc_sheets();
        tex_sizes.add_resource_bitmaps();
        tex_sizes.add_stage_tiles();
        tex_sizes.add_dialog_sheets();

        EngineConstants {
            my_char: MyCharConsts {
                cond: 0x80,
                flags: 0,
                equip: 0,
                direction: Direction::Right,
                view: Rect { left: 8 * PIXEL, top: 8 * PIXEL, right: 8 * PIXEL, bottom: 8 * PIXEL },
                hit: Rect { left: 5 * PIXEL, top: 8 * PIXEL, right: 5 * PIXEL, bottom: 8 * PIXEL },
                life: 3,
                max_life: 3,
                unit: 0,
                air_physics: PhysicsConsts {
                    max_dash: 0x32c,
                    max_move: 0x5ff,
                    gravity_air: 0x20,
                    gravity_ground: 0x50,
                    dash_air: 0x20,
                    dash_ground: 0x55,
                    resist: 0x33,
                    jump: 0x500,
                },
                water_physics: PhysicsConsts {
                    max_dash: 0x196,
                    max_move: 0x2ff,
                    gravity_air: 0x10,
                    gravity_ground: 0x28,
                    dash_air: 0x10,
                    dash_ground: 0x2a,
                    resist: 0x19,
                    jump: 0x280,
                },
                animations_left: [
                    Rect { left: 0, top: 0, right: 16, bottom: 16 },
                    Rect { left: 16, top: 0, right: 32, bottom: 16 },
                    Rect { left: 0, top: 0, right: 16, bottom: 16 },
                    Rect { left: 32, top: 0, right: 48, bottom: 16 },
                    Rect { left: 0, top: 0, right: 16, bottom: 16 },
                    Rect { left: 48, top: 0, right: 64, bottom: 16 },
                    Rect { left: 64, top: 0, right: 80, bottom: 16 },
                    Rect { left: 48, top: 0, right: 64, bottom: 16 },
                    Rect { left: 80, top: 0, right: 96, bottom: 16 },
                    Rect { left: 48, top: 0, right: 64, bottom: 16 },
                    Rect { left: 96, top: 0, right: 112, bottom: 16 },
                    Rect { left: 112, top: 0, right: 128, bottom: 16 },
                ],
                animations_right: [
                    Rect { left: 0, top: 16, right: 16, bottom: 32 },
                    Rect { left: 16, top: 16, right: 32, bottom: 32 },
                    Rect { left: 0, top: 16, right: 16, bottom: 32 },
                    Rect { left: 32, top: 16, right: 48, bottom: 32 },
                    Rect { left: 0, top: 16, right: 16, bottom: 32 },
                    Rect { left: 48, top: 16, right: 64, bottom: 32 },
                    Rect { left: 64, top: 16, right: 80, bottom: 32 },
                    Rect { left: 48, top: 16, right: 64, bottom: 32 },
                    Rect { left: 80, top: 16, right: 96, bottom: 32 },
                    Rect { left: 48, top: 16, right: 64, bottom: 32 },
                    Rect { left: 96, top: 16, right: 112, bottom: 32 },
                    Rect { left: 112, top: 16, right: 128, bottom: 32 },
                ],
            },
            booster: BoosterConsts {
                b2_0_up: -0x5ff,
                b2_0_up_nokey: -0x5ff,
                b2_0_down: 0x5ff,
                b2_0_left: -0x5ff,
                b2_0_right: 0x5ff,
            },
            tex_sizes,
        }
    }
}

} // verus!
