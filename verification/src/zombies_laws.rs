//! What holds of the zombie contract across its operations.
use vstd::prelude::*;

use crate::zombies::{
    next_zombie_id, owned_by, owned_ids, owner_at, pow10, with_zombie, zombie_at, zombies_wf,
    ZombieView, ZombiesView,
};

verus! {

/// No account owns two zombies.
pub open spec fn one_zombie_per_owner(v: ZombiesView) -> bool {
    forall|i: int, j: int|
        0 <= i < v.owners.len() && 0 <= j < v.owners.len() && i != j ==> #[trigger] v.owners[i]
            != #[trigger] v.owners[j]
}

/// Every zombie's DNA has at most the contract's number of digits.
pub open spec fn dna_within_digits(v: ZombiesView) -> bool {
    forall|i: int| 0 <= i < v.zombies.len() ==> (#[trigger] v.zombies[i]).dna < pow10(
        v.dna_digits as nat,
    )
}

/// Creating a zombie for an account that owns none keeps "one zombie per owner".
pub proof fn law_random_zombie_keeps_one_per_owner(
    v: ZombiesView,
    caller: Seq<u8>,
    name: Seq<u8>,
    dna: u64,
)
    requires
        zombies_wf(v),
        v.owners.len() < usize::MAX,
        one_zombie_per_owner(v),
        owned_by(v, caller).is_empty(),
    ensures
        one_zombie_per_owner(with_zombie(v, caller, name, dna)),
{
    let w = with_zombie(v, caller, name, dna);
    assert forall|i: int, j: int|
        0 <= i < w.owners.len() && 0 <= j < w.owners.len() && i != j implies #[trigger] w.owners[i]
        != #[trigger] w.owners[j] by {
        if i == v.owners.len() {
            assert(w.owners[j] == v.owners[j]);
            let id = (j + 1) as usize;
            if v.owners[j] == caller {
                assert(owned_by(v, caller).contains(id));
            }
        } else if j == v.owners.len() {
            assert(w.owners[i] == v.owners[i]);
            let id = (i + 1) as usize;
            if v.owners[i] == caller {
                assert(owned_by(v, caller).contains(id));
            }
        } else {
            assert(w.owners[i] == v.owners[i]);
            assert(w.owners[j] == v.owners[j]);
        }
    }
}

/// Creating a zombie with a DNA below `10^digits` keeps every DNA within the digit count.
pub proof fn law_random_zombie_keeps_dna_within_digits(
    v: ZombiesView,
    owner: Seq<u8>,
    name: Seq<u8>,
    dna: u64,
)
    requires
        dna_within_digits(v),
        dna < pow10(v.dna_digits as nat),
    ensures
        dna_within_digits(with_zombie(v, owner, name, dna)),
{
    let w = with_zombie(v, owner, name, dna);
    assert forall|i: int| 0 <= i < w.zombies.len() implies (#[trigger] w.zombies[i]).dna < pow10(
        w.dna_digits as nat,
    ) by {
        if i < v.zombies.len() {
            assert(w.zombies[i] == v.zombies[i]);
        }
    }
}

/// A new zombie gets the next id, can be read back with its owner under that id,
/// joins its owner's zombies, and leaves every other zombie and owner as they were.
pub proof fn law_create_then_read(
    v: ZombiesView,
    owner: Seq<u8>,
    name: Seq<u8>,
    dna: u64,
    other_id: usize,
    other_owner: Seq<u8>,
)
    requires
        zombies_wf(v),
        next_zombie_id(v) < usize::MAX,
        other_id != next_zombie_id(v),
        other_owner != owner,
    ensures
        zombie_at(with_zombie(v, owner, name, dna), next_zombie_id(v) as usize) == Some(
            ZombieView { name, dna },
        ),
        owner_at(with_zombie(v, owner, name, dna), next_zombie_id(v) as usize) == Some(owner),
        next_zombie_id(with_zombie(v, owner, name, dna)) == next_zombie_id(v) + 1,
        owned_by(with_zombie(v, owner, name, dna), owner) == owned_by(v, owner).insert(
            next_zombie_id(v) as usize,
        ),
        owned_by(with_zombie(v, owner, name, dna), other_owner) == owned_by(v, other_owner),
        zombie_at(with_zombie(v, owner, name, dna), other_id) == zombie_at(v, other_id),
        owner_at(with_zombie(v, owner, name, dna), other_id) == owner_at(v, other_id),
{
    let w = with_zombie(v, owner, name, dna);
    assert(owned_by(w, owner) =~= owned_by(v, owner).insert(next_zombie_id(v) as usize));
    assert(owned_by(w, other_owner) =~= owned_by(v, other_owner));
}

/// The listing of an account's zombies holds exactly the ids of its zombies, each once,
/// in increasing order.
pub proof fn law_owned_zombies_listing(v: ZombiesView, owner: Seq<u8>, n: nat)
    requires
        n <= v.owners.len(),
        v.owners.len() < usize::MAX,
    ensures
        forall|id: usize| #[trigger]
            owned_ids(v, owner, n).contains(id) <==> (1 <= id <= n && owned_by(v, owner).contains(
                id,
            )),
        forall|i: int, j: int|
            0 <= i < j < owned_ids(v, owner, n).len() ==> owned_ids(v, owner, n)[i] < owned_ids(
                v,
                owner,
                n,
            )[j],
        forall|i: int|
            0 <= i < owned_ids(v, owner, n).len() ==> 1 <= #[trigger] owned_ids(v, owner, n)[i]
                <= n,
    decreases n,
{
    if n > 0 {
        law_owned_zombies_listing(v, owner, (n - 1) as nat);
        let prev = owned_ids(v, owner, (n - 1) as nat);
        if v.owners[n - 1] == owner {
            let cur = owned_ids(v, owner, n);
            assert(cur == prev.push(n as usize));
            assert forall|id: usize| #[trigger]
                cur.contains(id) <==> (1 <= id <= n && owned_by(v, owner).contains(id)) by {
                if 1 <= id <= n && owned_by(v, owner).contains(id) {
                    if id == n {
                        assert(cur[prev.len() as int] == id);
                    } else {
                        assert(prev.contains(id));
                        let k = choose|k: int| 0 <= k < prev.len() && prev[k] == id;
                        assert(cur[k] == id);
                    }
                }
                if cur.contains(id) {
                    let k = choose|k: int| 0 <= k < cur.len() && cur[k] == id;
                    if k < prev.len() {
                        assert(prev[k] == id);
                        assert(prev.contains(id));
                    }
                }
            }
        } else {
            assert forall|id: usize| #[trigger]
                prev.contains(id) <==> (1 <= id <= n && owned_by(v, owner).contains(id)) by {
                if id == n {
                    assert(!owned_by(v, owner).contains(id));
                }
            }
        }
    }
}

/// Creating a zombie keeps every storage well formed.
pub proof fn law_create_keeps_wf(v: ZombiesView, owner: Seq<u8>, name: Seq<u8>, dna: u64)
    requires
        zombies_wf(v),
    ensures
        zombies_wf(with_zombie(v, owner, name, dna)),
{
}

/// An account never loses a zombie: whoever owns one keeps owning it after any creation, so
/// every later `create_random_zombie` by that account is refused.
pub proof fn law_owner_keeps_zombie(
    v: ZombiesView,
    account: Seq<u8>,
    owner: Seq<u8>,
    name: Seq<u8>,
    dna: u64,
)
    requires
        zombies_wf(v),
    ensures
        owned_by(v, account).subset_of(owned_by(with_zombie(v, owner, name, dna), account)),
        !owned_by(v, account).is_empty() ==> !owned_by(
            with_zombie(v, owner, name, dna),
            account,
        ).is_empty(),
{
    let w = with_zombie(v, owner, name, dna);
    assert forall|id: usize| owned_by(v, account).contains(id) implies owned_by(w, account).contains(
        id,
    ) by {
        assert(w.owners[id - 1] == v.owners[id - 1]);
    }
    if !owned_by(v, account).is_empty() {
        let id = owned_by(v, account).choose();
        assert(owned_by(w, account).contains(id));
    }
}

} // verus!
