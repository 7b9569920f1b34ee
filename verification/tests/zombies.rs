use mvx_contracts::address::Address;
use mvx_contracts::zombies::{NewZombieEvent, Zombie, ZombieError, ZombiesContract, DNA_DIGITS};

fn addr(b: u8) -> Address {
    Address::new([b; 32])
}

#[test]
fn init_sets_sixteen_digits_and_first_id_one() {
    let z = ZombiesContract::init();
    assert_eq!(z.dna_digits(), DNA_DIGITS);
    assert_eq!(z.dna_digits(), 16);
    assert_eq!(z.zombie_last_index(), 1);
    assert_eq!(z.dna_upper_bound(), 10_000_000_000_000_000);
}

#[test]
fn dna_upper_bound_is_ten_to_the_digits() {
    assert_eq!(ZombiesContract::from_parts(0, Vec::new(), Vec::new()).dna_upper_bound(), 1);
    assert_eq!(ZombiesContract::from_parts(3, Vec::new(), Vec::new()).dna_upper_bound(), 1000);
    assert_eq!(ZombiesContract::from_parts(19, Vec::new(), Vec::new()).dna_upper_bound(), 10_000_000_000_000_000_000);
}

#[test]
fn one_random_zombie_per_account() {
    let mut z = ZombiesContract::init();
    let ev = z.create_random_zombie(addr(1), b"Bob".to_vec(), 1234).unwrap();
    assert_eq!(ev, NewZombieEvent { zombie_id: 1, name: b"Bob".to_vec(), dna: 1234 });
    assert_eq!(z.create_random_zombie(addr(1), b"Bob2".to_vec(), 5).unwrap_err(), ZombieError::AlreadyOwnsZombie);
    assert_eq!(z.zombie_last_index(), 2);
    let ev2 = z.create_random_zombie(addr(2), b"Ann".to_vec(), 99).unwrap();
    assert_eq!(ev2.zombie_id, 2);
    assert_eq!(z.create_random_zombie(addr(1), b"Bob3".to_vec(), 7).unwrap_err(), ZombieError::AlreadyOwnsZombie);
    assert_eq!(z.zombie_last_index(), 3);
    assert_eq!(z.zombies(1), Some(Zombie { name: b"Bob".to_vec(), dna: 1234 }));
    assert_eq!(z.zombies(2), Some(Zombie { name: b"Ann".to_vec(), dna: 99 }));
    assert_eq!(z.zombies(0), None);
    assert_eq!(z.zombies(3), None);
    assert_eq!(z.zombie_owner(1), Some(addr(1)));
    assert_eq!(z.zombie_owner(2), Some(addr(2)));
    assert_eq!(z.zombie_owner(3), None);
    assert_eq!(z.owned_zombies(&addr(1)), vec![1]);
    assert_eq!(z.owned_zombies(&addr(2)), vec![2]);
    assert_eq!(z.owned_zombies(&addr(3)), Vec::<usize>::new());
    assert!(z.owns_no_zombie(&addr(3)));
    assert!(!z.owns_no_zombie(&addr(1)));
    assert_eq!(ZombieError::AlreadyOwnsZombie.message(), "You already own a zombie");
}

#[test]
fn create_zombie_records_owner_without_the_one_per_account_check() {
    let mut z = ZombiesContract::init();
    let e1 = z.create_zombie(addr(7), b"A".to_vec(), 1);
    let e2 = z.create_zombie(addr(7), b"B".to_vec(), 2);
    assert_eq!(e1.zombie_id, 1);
    assert_eq!(e2.zombie_id, 2);
    assert_eq!(z.owned_zombies(&addr(7)), vec![1, 2]);
}
