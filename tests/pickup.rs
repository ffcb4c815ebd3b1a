use bob_ross_adventure::pickup::{collect_coins, Coin, CoinCollector, Collectible, Collectibles, Heart};

fn level(coins: &[u64], hearts: &[u64]) -> Collectibles {
    let mut world = Collectibles::new();
    for &id in coins {
        assert!(world.spawn(id, Collectible::Coin(Coin)));
    }
    for &id in hearts {
        assert!(world.spawn(id, Collectible::Heart(Heart)));
    }
    world
}

#[test]
fn touched_coins_are_counted_and_removed() {
    let mut world = level(&[1, 2, 3, 4], &[]);
    let mut collector = CoinCollector::default();
    collect_coins(&mut world, &mut collector, &vec![3, 1, 4]);
    assert_eq!(collector.0, 3);
    assert!(!world.contains(1));
    assert!(!world.contains(3));
    assert!(!world.contains(4));
    assert!(world.contains(2));
    assert_eq!(world.len(), 1);
}

#[test]
fn coin_listed_twice_counts_once() {
    let mut world = level(&[7], &[]);
    let mut collector = CoinCollector(5);
    collect_coins(&mut world, &mut collector, &vec![7, 7]);
    assert_eq!(collector.0, 6);
    assert_eq!(world.len(), 0);
}

#[test]
fn same_contacts_next_tick_collect_nothing() {
    let mut world = level(&[1, 2], &[]);
    let mut collector = CoinCollector::default();
    collect_coins(&mut world, &mut collector, &vec![1, 2]);
    collect_coins(&mut world, &mut collector, &vec![1, 2]);
    assert_eq!(collector.0, 2);
    assert_eq!(world.len(), 0);
}

#[test]
fn hearts_and_unknown_ids_are_passed_over() {
    let mut world = level(&[1], &[9]);
    let mut collector = CoinCollector::default();
    collect_coins(&mut world, &mut collector, &vec![9, 42]);
    assert_eq!(collector.0, 0);
    assert_eq!(world.get(9), Some(Collectible::Heart(Heart)));
    assert_eq!(world.get(1), Some(Collectible::Coin(Coin)));
    assert_eq!(world.get(42), None);
    assert_eq!(world.len(), 2);
}

#[test]
fn empty_contacts_change_nothing() {
    let mut world = level(&[1, 2], &[3]);
    let mut collector = CoinCollector(4);
    collect_coins(&mut world, &mut collector, &vec![]);
    assert_eq!(collector.0, 4);
    assert_eq!(world.len(), 3);
}

#[test]
fn spawn_refuses_taken_id() {
    let mut world = level(&[1], &[]);
    assert!(!world.spawn(1, Collectible::Heart(Heart)));
    assert_eq!(world.get(1), Some(Collectible::Coin(Coin)));
    assert_eq!(world.len(), 1);
}
