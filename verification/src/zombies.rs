//! The zombie contract: every account may create one zombie with a random DNA.
use vstd::prelude::*;

use crate::address::Address;
use crate::token::copy_bytes;

verus! {

/// `10` raised to `n`.
pub open spec fn pow10(n: nat) -> nat
    decreases n,
{
    if n == 0 {
        1
    } else {
        10 * pow10((n - 1) as nat)
    }
}

proof fn lemma_pow10_monotonic(m: nat, n: nat)
    requires
        m <= n,
    ensures
        pow10(m) <= pow10(n),
    decreases n,
{
    if m < n {
        lemma_pow10_monotonic(m, (n - 1) as nat);
    }
}

/// The number of DNA digits that the contract is deployed with.
pub const DNA_DIGITS: u8 = 16;

/// The largest digit count whose power of ten fits in a `u64`.
pub const MAX_DNA_DIGITS: u8 = 19;

/// A zombie: a name and a DNA.
#[derive(Debug, PartialEq, Eq)]
pub struct Zombie {
    pub name: Vec<u8>,
    pub dna: u64,
}

pub ghost struct ZombieView {
    pub name: Seq<u8>,
    pub dna: u64,
}

impl View for Zombie {
    type V = ZombieView;

    open spec fn view(&self) -> ZombieView {
        ZombieView { name: self.name@, dna: self.dna }
    }
}

/// Why the contract refuses to create a zombie.
#[derive(Clone, Copy, Debug, PartialEq, Eq, Structural)]
pub enum ZombieError {
    AlreadyOwnsZombie,
}

impl ZombieError {
    /// The message with which the contract signals the error.
    pub fn message(&self) -> (r: &'static str)
        ensures
            r@ == "You already own a zombie"@,
    {
        "You already own a zombie"
    }
}

/// The log entry that creating a zombie emits.
#[derive(Debug, PartialEq, Eq)]
pub struct NewZombieEvent {
    pub zombie_id: usize,
    pub name: Vec<u8>,
    pub dna: u64,
}

pub ghost struct NewZombieEventView {
    pub zombie_id: usize,
    pub name: Seq<u8>,
    pub dna: u64,
}

impl View for NewZombieEvent {
    type V = NewZombieEventView;

    open spec fn view(&self) -> NewZombieEventView {
        NewZombieEventView { zombie_id: self.zombie_id, name: self.name@, dna: self.dna }
    }
}

/// The contract's storage, as mathematics: the zombie with id `k` (counting from 1)
/// is `zombies[k - 1]` and belongs to `owners[k - 1]`; the next id is `zombies.len() + 1`.
pub ghost struct ZombiesView {
    pub dna_digits: u8,
    pub zombies: Seq<ZombieView>,
    pub owners: Seq<Seq<u8>>,
}

/// What every storage satisfies: one owner per zombie, and a digit count whose power of ten
/// fits in a `u64`.
pub open spec fn zombies_wf(v: ZombiesView) -> bool {
    &&& v.zombies.len() == v.owners.len()
    &&& v.dna_digits <= MAX_DNA_DIGITS
}

/// The id that the next zombie gets.
pub open spec fn next_zombie_id(v: ZombiesView) -> nat {
    v.zombies.len() + 1
}

/// The ids of the zombies that `owner` holds.
pub open spec fn owned_by(v: ZombiesView, owner: Seq<u8>) -> Set<usize> {
    Set::new(|id: usize| 1 <= id <= v.owners.len() && v.owners[id - 1] == owner)
}

/// The zombie with id `id`, if there is one.
pub open spec fn zombie_at(v: ZombiesView, id: usize) -> Option<ZombieView> {
    if 1 <= id <= v.zombies.len() {
        Some(v.zombies[id - 1])
    } else {
        None
    }
}

/// The owner of zombie `id`, if there is one.
pub open spec fn owner_at(v: ZombiesView, id: usize) -> Option<Seq<u8>> {
    if 1 <= id <= v.owners.len() {
        Some(v.owners[id - 1])
    } else {
        None
    }
}

/// The storage after zombie `{name, dna}` is created for `owner`.
pub open spec fn with_zombie(v: ZombiesView, owner: Seq<u8>, name: Seq<u8>, dna: u64) -> ZombiesView {
    ZombiesView {
        zombies: v.zombies.push(ZombieView { name, dna }),
        owners: v.owners.push(owner),
        ..v
    }
}

/// The ids below `n + 1` of the zombies of `owner`, in increasing order.
pub open spec fn owned_ids(v: ZombiesView, owner: Seq<u8>, n: nat) -> Seq<usize>
    decreases n,
{
    if n == 0 {
        Seq::empty()
    } else {
        let prev = owned_ids(v, owner, (n - 1) as nat);
        if n <= v.owners.len() && v.owners[n - 1] == owner {
            prev.push(n as usize)
        } else {
            prev
        }
    }
}

/// The zombie contract's storage.
pub struct ZombiesContract {
    dna_digits: u8,
    zombies: Vec<Zombie>,
    owners: Vec<Address>,
}

impl View for ZombiesContract {
    type V = ZombiesView;

    closed spec fn view(&self) -> ZombiesView {
        ZombiesView {
            dna_digits: self.dna_digits,
            zombies: self.zombies@.map_values(|z: Zombie| z@),
            owners: self.owners@.map_values(|a: Address| a@),
        }
    }
}

/// The feeding module of the zombie contract; it adds no endpoint yet.
pub trait ZombieFeeding {
}

impl ZombieFeeding for ZombiesContract {
}

impl ZombiesContract {
    #[verifier::type_invariant]
    spec fn well_formed(self) -> bool {
        &&& self.zombies.len() == self.owners.len()
        &&& self.dna_digits <= MAX_DNA_DIGITS
    }

    /// The storage right after deployment: 16 DNA digits and no zombie, so the next id is 1.
    pub fn init() -> (r: ZombiesContract)
        ensures
            r@.dna_digits == DNA_DIGITS,
            r@.zombies.len() == 0,
            r@.owners.len() == 0,
            next_zombie_id(r@) == 1,
            zombies_wf(r@),
    {
        let r = ZombiesContract { dna_digits: DNA_DIGITS, zombies: Vec::new(), owners: Vec::new() };
        r
    }

    /// Storage with the given digit count and zombies, zombie `k` (from 1) at position `k - 1`
    /// and owned by `owners[k - 1]`.
    pub fn from_parts(dna_digits: u8, zombies: Vec<Zombie>, owners: Vec<Address>) -> (r:
        ZombiesContract)
        requires
            dna_digits <= MAX_DNA_DIGITS,
            zombies.len() == owners.len(),
        ensures
            r@.dna_digits == dna_digits,
            r@.zombies == zombies@.map_values(|z: Zombie| z@),
            r@.owners == owners@.map_values(|a: Address| a@),
            zombies_wf(r@),
    {
        ZombiesContract { dna_digits, zombies, owners }
    }

    /// The number of DNA digits.
    pub fn dna_digits(&self) -> (r: u8)
        ensures
            r == self@.dna_digits,
            r <= MAX_DNA_DIGITS,
            zombies_wf(self@),
    {
        proof {
            use_type_invariant(self);
        }
        self.dna_digits
    }

    /// The id that the next zombie gets.
    pub fn zombie_last_index(&self) -> (r: usize)
        requires
            self@.zombies.len() < usize::MAX,
        ensures
            r == next_zombie_id(self@),
            zombies_wf(self@),
    {
        proof {
            use_type_invariant(self);
        }
        self.zombies.len() + 1
    }

    /// The bound below which a random DNA is drawn: `10` to the number of DNA digits.
    pub fn dna_upper_bound(&self) -> (r: u64)
        ensures
            r == pow10(self@.dna_digits as nat),
            zombies_wf(self@),
    {
        proof {
            use_type_invariant(self);
            lemma_pow10_monotonic(self.dna_digits as nat, 19);
            reveal_with_fuel(pow10, 20);
            assert(pow10(19) == 10000000000000000000nat);
        }
        let mut r: u64 = 1;
        let mut i: u8 = 0;
        while i < self.dna_digits
            invariant
                i <= self.dna_digits,
                self.dna_digits <= 19,
                r == pow10(i as nat),
                pow10(self.dna_digits as nat) <= 10000000000000000000nat,
            decreases self.dna_digits - i,
        {
            proof {
                lemma_pow10_monotonic((i + 1) as nat, self.dna_digits as nat);
            }
            r = r * 10;
            i = i + 1;
        }
        r
    }

    /// Creates zombie `{name, dna}` for `owner` under the next id, and records its owner.
    pub fn create_zombie(&mut self, owner: Address, name: Vec<u8>, dna: u64) -> (r: NewZombieEvent)
        requires
            next_zombie_id(old(self)@) < usize::MAX,
        ensures
            final(self)@ == with_zombie(old(self)@, owner@, name@, dna),
            r@ == (NewZombieEventView {
                zombie_id: next_zombie_id(old(self)@) as usize,
                name: name@,
                dna,
            }),
            zombies_wf(old(self)@),
            zombies_wf(final(self)@),
            ({
                let n = next_zombie_id(old(self)@) as usize;
                &&& zombie_at(final(self)@, n) == Some(ZombieView { name: name@, dna })
                &&& owner_at(final(self)@, n) == Some(owner@)
                &&& owned_by(final(self)@, owner@) == owned_by(old(self)@, owner@).insert(n)
                &&& forall|k: usize|
                    k != n ==> #[trigger] zombie_at(final(self)@, k) == zombie_at(old(self)@, k)
                        && owner_at(final(self)@, k) == owner_at(old(self)@, k)
                &&& forall|o: Seq<u8>|
                    o != owner@ ==> #[trigger] owned_by(final(self)@, o) == owned_by(
                        old(self)@,
                        o,
                    )
            }),
    {
        proof {
            use_type_invariant(&*self);
        }
        let id = self.zombies.len() + 1;
        let event = NewZombieEvent { zombie_id: id, name: copy_bytes(&name), dna };
        let ghost old_zombies = self.zombies@;
        let ghost old_owners = self.owners@;
        let mut taken = ZombiesContract::init();
        std::mem::swap(self, &mut taken);
        proof {
            use_type_invariant(&taken);
        }
        let ZombiesContract { dna_digits, mut zombies, mut owners } = taken;
        zombies.push(Zombie { name, dna });
        owners.push(owner);
        *self = ZombiesContract { dna_digits, zombies, owners };
        proof {
            assert(self.zombies@.map_values(|z: Zombie| z@) =~= old_zombies.map_values(
                |z: Zombie| z@,
            ).push(ZombieView { name: name@, dna }));
            assert(self.owners@.map_values(|a: Address| a@) =~= old_owners.map_values(
                |a: Address| a@,
            ).push(owner@));
            let n = id;
            let v0 = old(self)@;
            let v1 = self@;
            assert(owned_by(v1, owner@) =~= owned_by(v0, owner@).insert(n));
            assert forall|o: Seq<u8>| o != owner@ implies #[trigger] owned_by(v1, o) == owned_by(
                v0,
                o,
            ) by {
                assert(owned_by(v1, o) =~= owned_by(v0, o));
            }
        }
        event
    }

    /// Whether `owner` holds no zombie.
    pub fn owns_no_zombie(&self, owner: &Address) -> (r: bool)
        ensures
            r == owned_by(self@, owner@).is_empty(),
            zombies_wf(self@),
    {
        proof {
            use_type_invariant(self);
        }
        let n = self.owners.len();
        let mut i: usize = 0;
        while i < n
            invariant
                i <= n,
                n == self.owners@.len(),
                zombies_wf(self@),
                forall|k: int| 0 <= k < i ==> self.owners@[k]@ != owner@,
            decreases n - i,
        {
            if self.owners[i].same_as(owner) {
                proof {
                    let id = (i + 1) as usize;
                    assert(owned_by(self@, owner@).contains(id));
                }
                return false;
            }
            i = i + 1;
        }
        proof {
            assert(owned_by(self@, owner@) =~= Set::<usize>::empty());
        }
        true
    }

    /// Creates a zombie named `name` for `caller`, who must not hold one yet,
    /// with `random_dna`, a number drawn below `dna_upper_bound()`.
    pub fn create_random_zombie(&mut self, caller: Address, name: Vec<u8>, random_dna: u64) -> (r:
        Result<NewZombieEvent, ZombieError>)
        requires
            next_zombie_id(old(self)@) < usize::MAX,
            random_dna < pow10(old(self)@.dna_digits as nat),
        ensures
            match r {
                Ok(event) => {
                    &&& owned_by(old(self)@, caller@).is_empty()
                    &&& owned_by(final(self)@, caller@) == set![
                        next_zombie_id(old(self)@) as usize,
                    ]
                    &&& owner_at(final(self)@, next_zombie_id(old(self)@) as usize) == Some(
                        caller@,
                    )
                    &&& zombie_at(final(self)@, next_zombie_id(old(self)@) as usize) == Some(
                        ZombieView { name: name@, dna: random_dna },
                    )
                    &&& final(self)@ == with_zombie(old(self)@, caller@, name@, random_dna)
                    &&& event@ == (NewZombieEventView {
                        zombie_id: next_zombie_id(old(self)@) as usize,
                        name: name@,
                        dna: random_dna,
                    })
                },
                Err(e) => {
                    &&& !owned_by(old(self)@, caller@).is_empty()
                    &&& e == ZombieError::AlreadyOwnsZombie
                    &&& final(self)@ == old(self)@
                },
            },
            zombies_wf(old(self)@),
            zombies_wf(final(self)@),
    {
        if !self.owns_no_zombie(&caller) {
            return Err(ZombieError::AlreadyOwnsZombie);
        }
        let event = self.create_zombie(caller, name, random_dna);
        proof {
            assert(owned_by(old(self)@, caller@) =~= Set::<usize>::empty());
            assert(owned_by(self@, caller@) =~= set![next_zombie_id(old(self)@) as usize]);
        }
        Ok(event)
    }

    /// A copy of zombie `id`, if it exists.
    pub fn zombies(&self, id: usize) -> (r: Option<Zombie>)
        ensures
            (match r {
                Some(z) => Some(z@),
                None => None,
            }) == zombie_at(self@, id),
            zombies_wf(self@),
    {
        proof {
            use_type_invariant(self);
        }
        if id >= 1 && id <= self.zombies.len() {
            let z = &self.zombies[id - 1];
            Some(Zombie { name: copy_bytes(&z.name), dna: z.dna })
        } else {
            None
        }
    }

    /// The owner of zombie `id`, if it exists.
    pub fn zombie_owner(&self, id: usize) -> (r: Option<Address>)
        ensures
            (match r {
                Some(a) => Some(a@),
                None => None,
            }) == owner_at(self@, id),
            zombies_wf(self@),
    {
        proof {
            use_type_invariant(self);
        }
        if id >= 1 && id <= self.owners.len() {
            Some(self.owners[id - 1])
        } else {
            None
        }
    }

    /// The ids of the zombies of `owner`, in increasing order.
    pub fn owned_zombies(&self, owner: &Address) -> (r: Vec<usize>)
        ensures
            r@ == owned_ids(self@, owner@, self@.owners.len()),
            zombies_wf(self@),
    {
        proof {
            use_type_invariant(self);
        }
        let n = self.owners.len();
        let mut r: Vec<usize> = Vec::new();
        let mut i: usize = 0;
        while i < n
            invariant
                i <= n,
                n == self@.owners.len(),
                r@ == owned_ids(self@, owner@, i as nat),
            decreases n - i,
        {
            if self.owners[i].same_as(owner) {
                r.push(i + 1);
            }
            i = i + 1;
        }
        r
    }
}

} // verus!
