use vstd::prelude::*;
use vstd::string::StringExecFns;

use crate::entities::player::Player;
use crate::text::str_eq;

verus! {

/// Some item of the bag carries this name.
pub open spec fn has_item(inv: Seq<Item>, name: Seq<char>) -> bool {
    exists|i: int| 0 <= i < inv.len() && (#[trigger] inv[i]).name@ == name
}

/// The index of the first item of the bag carrying this name
/// (meaningful only when `has_item` holds).
pub open spec fn first_item_index(inv: Seq<Item>, name: Seq<char>) -> int
    decreases inv.len(),
{
    if inv.len() == 0 {
        0
    } else if inv[0].name@ == name {
        0
    } else {
        1 + first_item_index(inv.drop_first(), name)
    }
}

/// An index that is a match and has no match before it is the first match.
proof fn lemma_first_item_index(inv: Seq<Item>, name: Seq<char>, k: int)
    requires
        0 <= k < inv.len(),
        inv[k].name@ == name,
        forall|j: int| 0 <= j < k ==> (#[trigger] inv[j]).name@ != name,
    ensures
        first_item_index(inv, name) == k,
        has_item(inv, name),
    decreases k,
{
    if k == 0 {
    } else {
        assert(inv.drop_first()[k - 1] == inv[k]);
        assert(forall|j: int|
            0 <= j < k - 1 ==> (#[trigger] inv.drop_first()[j]).name@ == inv[j + 1].name@);
        lemma_first_item_index(inv.drop_first(), name, k - 1);
    }
}

/// The player after the effect of using an item with this name:
/// a health potion restores 20 health, a mana potion 15 mana, and any
/// other name changes nothing.
pub open spec fn effect_applied(p: Player, name: Seq<char>) -> Player {
    if name == "Health Potion"@ {
        Player { health: (p.health + 20) as i32, ..p }
    } else if name == "Mana Potion"@ {
        Player { mana: (p.mana + 15) as i32, ..p }
    } else {
        p
    }
}

/// Applies the named effect of a (already removed) item to the player:
/// "Health Potion" restores 20 health, "Mana Potion" 15 mana, anything
/// else is not useful and changes nothing.
pub fn apply_item_effect(player: &mut Player, item: &Item)
    requires
        item.name@ == "Health Potion"@ ==> old(player).health + 20 <= i32::MAX,
        item.name@ == "Mana Potion"@ ==> old(player).mana + 15 <= i32::MAX,
    ensures
        *final(player) == effect_applied(*old(player), item.name@),
{
    if str_eq(item.name.as_str(), "Health Potion") {
        player.health = player.health + 20;
    } else if str_eq(item.name.as_str(), "Mana Potion") {
        player.mana = player.mana + 15;
    }
}

/// An item lying on the grid or carried by the player. The position is
/// only meaningful while the item lies on the grid; once picked up, a
/// carried item keeps the field but no longer has spatial meaning.
#[derive(Debug)]
pub struct Item {
    pub name: String,
    pub position: (usize, usize),
}

impl Clone for Item {
    fn clone(&self) -> (r: Item)
        ensures
            r == *self,
    {
        Item { name: self.name.clone(), position: self.position }
    }
}

impl Item {
    pub fn new(name: &str, position: (usize, usize)) -> (item: Item)
        ensures
            item.name@ == name@,
            item.position == position,
    {
        Item { name: name.to_owned(), position }
    }

    /// Puts an item into the player's bag. The caller removes it from
    /// the on-floor collection; the bag itself keeps duplicates and
    /// insertion order.
    pub fn add_item(player: &mut Player, item: Item) -> (msg: String)
        ensures
            (*final(player) == (Player { inventory: final(player).inventory, ..*old(player) })),
            final(player).inventory@ == old(player).inventory@.push(item),
            msg@ == "You found a new item!"@,
    {
        player.inventory.push(item);
        String::from_str("You found a new item!")
    }

    /// Uses the first item of the bag carrying this name: removes it and
    /// applies its effect. When no item matches, nothing changes and the
    /// message says so.
    pub fn use_item(player: &mut Player, item_name: &str) -> (msg: String)
        requires
            has_item(old(player).inventory@, item_name@) && item_name@ == "Health Potion"@
                ==> old(player).health + 20 <= i32::MAX,
            has_item(old(player).inventory@, item_name@) && item_name@ == "Mana Potion"@
                ==> old(player).mana + 15 <= i32::MAX,
        ensures
            !has_item(old(player).inventory@, item_name@) ==> {
                &&& *final(player) == *old(player)
                &&& msg@ == "Object not found on inventary."@
            },
            has_item(old(player).inventory@, item_name@) ==> {
                &&& (*final(player) == (Player {
                    inventory: final(player).inventory,
                    ..effect_applied(*old(player), item_name@)
                }))
                &&& final(player).inventory@ == old(player).inventory@.remove(
                    first_item_index(old(player).inventory@, item_name@),
                )
                &&& msg@ == "You used item"@
            },
    {
        let mut k: usize = 0;
        let item_count = player.inventory.len();
        while k < item_count
            invariant
                *player == *old(player),
                item_count == player.inventory@.len(),
                k <= item_count,
                forall|j: int|
                    0 <= j < k ==> (#[trigger] player.inventory@[j]).name@ != item_name@,
                has_item(old(player).inventory@, item_name@) && item_name@ == "Health Potion"@
                    ==> old(player).health + 20 <= i32::MAX,
                has_item(old(player).inventory@, item_name@) && item_name@ == "Mana Potion"@
                    ==> old(player).mana + 15 <= i32::MAX,
            decreases item_count - k,
        {
            if str_eq(player.inventory[k].name.as_str(), item_name) {
                proof {
                    lemma_first_item_index(player.inventory@, item_name@, k as int);
                }
                let item = player.inventory.remove(k);
                apply_item_effect(player, &item);
                return String::from_str("You used item");
            }
            k += 1;
        }
        proof {
            assert(!has_item(player.inventory@, item_name@));
        }
        String::from_str("Object not found on inventary.")
    }
}

} // verus!
