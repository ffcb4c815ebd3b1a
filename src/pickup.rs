use std::collections::HashMap;
use vstd::prelude::*;

verus! {

broadcast use vstd::std_specs::hash::group_hash_axioms;

/// Marker of a coin pickup.
#[derive(Clone, Copy, Debug, Default, PartialEq, Eq, Structural)]
pub struct Coin;

/// Marker of a heart pickup. Hearts lie in the level but nothing is done on
/// touching one.
#[derive(Clone, Copy, Debug, Default, PartialEq, Eq, Structural)]
pub struct Heart;

/// What kind of pickup an entity is.
#[derive(Clone, Copy, Debug, PartialEq, Eq, Structural)]
pub enum Collectible {
    Coin(Coin),
    Heart(Heart),
}

/// Number of coins the player has picked up.
#[derive(Clone, Copy, Debug, Default, PartialEq, Eq, Structural)]
pub struct CoinCollector(pub u32);

/// The pickups that are still in the level, by entity id.
pub struct Collectibles {
    items: HashMap<u64, Collectible>,
}

/// Whether `id` names a coin that lies in `world`.
pub open spec fn is_coin_in(world: Map<u64, Collectible>, id: u64) -> bool {
    world.contains_key(id) && world[id] is Coin
}

/// The coins of `world` that the contact list touches, each once however often
/// it is listed.
pub open spec fn coins_hit(world: Map<u64, Collectible>, contacts: Seq<u64>) -> Set<u64> {
    world.dom().filter(|id: u64| contacts.contains(id) && world[id] is Coin)
}

impl View for Collectibles {
    type V = Map<u64, Collectible>;

    closed spec fn view(&self) -> Map<u64, Collectible> {
        self.items@
    }
}

impl Collectibles {
    /// A level without pickups.
    pub fn new() -> (r: Collectibles)
        ensures
            r@ == Map::<u64, Collectible>::empty(),
    {
        Collectibles { items: HashMap::new() }
    }

    /// Places pickup `kind` under entity id `id`. An id already in use is left
    /// as it was, and `false` is returned.
    pub fn spawn(&mut self, id: u64, kind: Collectible) -> (added: bool)
        ensures
            added == !old(self)@.contains_key(id),
            added ==> final(self)@ == old(self)@.insert(id, kind),
            !added ==> final(self)@ == old(self)@,
    {
        if self.items.contains_key(&id) {
            false
        } else {
            self.items.insert(id, kind);
            true
        }
    }

    /// The pickup under entity id `id`, if it is still in the level.
    pub fn get(&self, id: u64) -> (r: Option<Collectible>)
        ensures
            r == (if self@.contains_key(id) {
                Some(self@[id])
            } else {
                None
            }),
    {
        match self.items.get(&id) {
            Some(kind) => Some(*kind),
            None => None,
        }
    }

    /// Whether entity id `id` is a pickup still in the level.
    pub fn contains(&self, id: u64) -> (r: bool)
        ensures
            r == self@.contains_key(id),
    {
        self.items.contains_key(&id)
    }

    /// Number of pickups in the level.
    pub fn len(&self) -> (r: usize)
        ensures
            r == self@.len(),
    {
        self.items.len()
    }
}

/// Handles one tick's contact list: every touched coin is counted once and
/// taken out of the level at once; hearts and ids that are no longer (or never
/// were) pickups are passed over.
pub fn collect_coins(world: &mut Collectibles, collector: &mut CoinCollector, contacts: &Vec<u64>)
    requires
        old(collector).0 + old(world)@.len() <= u32::MAX,
    ensures
        final(world)@ == old(world)@.remove_keys(coins_hit(old(world)@, contacts@)),
        final(collector).0 == old(collector).0 + coins_hit(old(world)@, contacts@).len(),
{
    let ghost w0 = world@;
    let ghost c0 = collector.0;
    proof {
        w0.dom().lemma_len_filter(|id: u64| contacts@.take(0).contains(id) && w0[id] is Coin);
        assert(coins_hit(w0, contacts@.take(0)) =~= Set::empty());
        assert(world@ =~= w0.remove_keys(Set::empty()));
    }
    let mut i: usize = 0;
    while i < contacts.len()
        invariant
            0 <= i <= contacts@.len(),
            w0.dom().finite(),
            coins_hit(w0, contacts@.take(i as int)).finite(),
            coins_hit(w0, contacts@.take(i as int)).len() <= w0.len(),
            world@ == w0.remove_keys(coins_hit(w0, contacts@.take(i as int))),
            collector.0 == c0 + coins_hit(w0, contacts@.take(i as int)).len(),
            c0 + w0.len() <= u32::MAX,
        decreases contacts@.len() - i,
    {
        let id = contacts[i];
        let ghost before = coins_hit(w0, contacts@.take(i as int));
        let ghost after = coins_hit(w0, contacts@.take(i + 1));
        assert(contacts@.take(i + 1) =~= contacts@.take(i as int).push(id));
        proof {
            w0.dom().lemma_len_filter(|x: u64| contacts@.take(i + 1).contains(x) && w0[x] is Coin);
        }
        let is_coin = match world.items.get(&id) {
            Some(Collectible::Coin(_)) => true,
            _ => false,
        };
        assert forall|x: u64| #[trigger]
            contacts@.take(i + 1).contains(x) == (contacts@.take(i as int).contains(x) || x == id)
            by {
            if x == id {
                assert(contacts@.take(i + 1)[i as int] == id);
            }
            if contacts@.take(i + 1).contains(x) && x != id {
                let k = choose|k: int| 0 <= k < i + 1 && #[trigger] contacts@.take(i + 1)[k] == x;
                assert(contacts@.take(i as int)[k] == x);
            }
            if contacts@.take(i as int).contains(x) {
                let k = choose|k: int| 0 <= k < i && #[trigger] contacts@.take(i as int)[k] == x;
                assert(contacts@.take(i + 1)[k] == x);
            }
        }
        if is_coin {
            assert(w0.contains_key(id) && w0[id] is Coin && !before.contains(id));
            assert(after =~= before.insert(id));
            world.items.remove(&id);
            assert(world@ =~= w0.remove_keys(after));
            collector.0 = collector.0 + 1;
        } else {
            assert(after =~= before);
        }
        i = i + 1;
    }
    assert(contacts@.take(contacts@.len() as int) =~= contacts@);
}

/// Coins are collected exactly once: after a tick's contacts are handled none
/// of the coins they touched is left in the level, so handling the same
/// contacts again finds no coin to count.
pub proof fn lemma_coins_collected_once(world: Map<u64, Collectible>, contacts: Seq<u64>)
    ensures
        forall|id: u64| #[trigger]
            coins_hit(world, contacts).contains(id) ==> !world.remove_keys(
                coins_hit(world, contacts),
            ).contains_key(id),
        coins_hit(world.remove_keys(coins_hit(world, contacts)), contacts) == Set::<u64>::empty(),
{
    assert(coins_hit(world.remove_keys(coins_hit(world, contacts)), contacts) =~= Set::<
        u64,
    >::empty());
}

/// `n` distinct coins touched in one tick count `n`.
pub proof fn lemma_distinct_coins_count(world: Map<u64, Collectible>, contacts: Seq<u64>)
    requires
        world.dom().finite(),
        contacts.no_duplicates(),
        forall|k: int| 0 <= k < contacts.len() ==> is_coin_in(world, #[trigger] contacts[k]),
    ensures
        coins_hit(world, contacts).len() == contacts.len(),
{
    assert forall|id: u64| #[trigger] contacts.contains(id) implies is_coin_in(world, id) by {
        let k = choose|k: int| 0 <= k < contacts.len() && #[trigger] contacts[k] == id;
        assert(is_coin_in(world, contacts[k]));
    }
    assert(coins_hit(world, contacts) =~= contacts.to_set());
    contacts.unique_seq_to_set();
}

} // verus!
