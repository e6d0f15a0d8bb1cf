//! Refreshing the Signal contact directory: which profiles to fetch, and
//! taking in what was fetched.
use vstd::prelude::*;

use crate::model::{Contact, Model};
use crate::signal::Uuid;

verus! {

broadcast use vstd::std_specs::hash::group_hash_axioms;

/// A contact as the Signal account lists it.
#[derive(Clone, Debug, Default)]
pub struct ListedContact {
    pub uuid: Uuid,
    pub profile_key: Vec<u8>,
}

/// A profile the refresh has to fetch, with the contact's profile key when
/// it has one of the proper length.
#[derive(Clone, Copy, Debug)]
pub struct ProfileRequest {
    pub uuid: Uuid,
    pub profile_key: Option<[u8; 32]>,
}

/// A profile key of the proper length.
pub open spec fn profile_key_of(k: Seq<u8>) -> Option<Seq<u8>> {
    if k.len() == 32 {
        Some(k)
    } else {
        None
    }
}

/// A request as an account id and key bytes.
pub open spec fn request_view(p: ProfileRequest) -> (Uuid, Option<Seq<u8>>) {
    (
        p.uuid,
        match p.profile_key {
            Some(k) => Some(k@),
            None => None,
        },
    )
}

/// Whether `u` is among the accounts of `reqs`.
pub open spec fn requested(reqs: Seq<(Uuid, Option<Seq<u8>>)>, u: Uuid) -> bool {
    exists|j: int| 0 <= j < reqs.len() && (#[trigger] reqs[j]).0 == u
}

/// The profiles to fetch: one for each listed contact not yet known, in the
/// order of first listing.
pub open spec fn requests_for(known: Map<Uuid, Contact>, listed: Seq<ListedContact>) -> Seq<
    (Uuid, Option<Seq<u8>>),
>
    decreases listed.len(),
{
    if listed.len() == 0 {
        Seq::empty()
    } else {
        let rest = requests_for(known, listed.drop_last());
        let c = listed.last();
        if known.contains_key(c.uuid) || requested(rest, c.uuid) {
            rest
        } else {
            rest.push((c.uuid, profile_key_of(c.profile_key@)))
        }
    }
}

/// The contact directory after taking in fetched contacts: each one not yet
/// known is added; known ones are kept as they are.
pub open spec fn contacts_after(m: Map<Uuid, Contact>, fetched: Seq<Contact>) -> Map<Uuid, Contact>
    decreases fetched.len(),
{
    if fetched.len() == 0 {
        m
    } else {
        let c = fetched[0];
        let m1 = if m.contains_key(c.uuid) {
            m
        } else {
            m.insert(c.uuid, c)
        };
        contacts_after(m1, fetched.drop_first())
    }
}

fn key_bytes(k: &Vec<u8>) -> (r: Option<[u8; 32]>)
    ensures
        match r {
            Some(a) => profile_key_of(k@) == Some(a@),
            None => profile_key_of(k@) is None,
        },
{
    if k.len() != 32 {
        return None;
    }
    let mut a: [u8; 32] = [0u8; 32];
    let mut i: usize = 0;
    while i < 32
        invariant
            k@.len() == 32,
            i <= 32,
            forall|j: int| 0 <= j < i ==> a[j] == k@[j],
        decreases 32 - i,
    {
        a.set(i, k[i]);
        i = i + 1;
    }
    assert(a@ =~= k@);
    Some(a)
}

fn already_requested(r: &Vec<ProfileRequest>, u: Uuid) -> (b: bool)
    ensures
        b == exists|j: int| 0 <= j < r@.len() && (#[trigger] r@[j]).uuid == u,
{
    let mut j: usize = 0;
    while j < r.len()
        invariant
            j <= r@.len(),
            forall|k: int| 0 <= k < j ==> (#[trigger] r@[k]).uuid != u,
        decreases r@.len() - j,
    {
        if r[j].uuid == u {
            return true;
        }
        j = j + 1;
    }
    false
}

/// The profiles to fetch for the listed contacts that the model does not
/// know yet, each account once.
pub fn profile_requests(model: &Model, listed: &Vec<ListedContact>) -> (r: Vec<ProfileRequest>)
    ensures
        r@.len() == requests_for(model.contacts@, listed@).len(),
        forall|i: int|
            0 <= i < r@.len() ==> request_view(#[trigger] r@[i]) == requests_for(
                model.contacts@,
                listed@,
            )[i],
{
    let mut r: Vec<ProfileRequest> = Vec::new();
    let mut i: usize = 0;
    while i < listed.len()
        invariant
            i <= listed@.len(),
            r@.len() == requests_for(model.contacts@, listed@.subrange(0, i as int)).len(),
            forall|j: int|
                0 <= j < r@.len() ==> request_view(#[trigger] r@[j]) == requests_for(
                    model.contacts@,
                    listed@.subrange(0, i as int),
                )[j],
        decreases listed@.len() - i,
    {
        let c = &listed[i];
        let ghost before = r@;
        proof {
            assert(listed@.subrange(0, i + 1).drop_last() =~= listed@.subrange(0, i as int));
        }
        let ghost spec_rest = requests_for(model.contacts@, listed@.subrange(0, i as int));
        let seen = already_requested(&r, c.uuid);
        proof {
            if seen {
                let j = choose|j: int| 0 <= j < r@.len() && (#[trigger] r@[j]).uuid == c.uuid;
                assert(request_view(r@[j]) == spec_rest[j]);
                assert(spec_rest[j].0 == c.uuid);
            } else {
                assert forall|j: int| 0 <= j < spec_rest.len() implies (#[trigger] spec_rest[j]).0
                    != c.uuid by {
                    assert(request_view(r@[j]) == spec_rest[j]);
                }
            }
        }
        if !model.contacts.contains_key(&c.uuid) && !seen {
            let req = ProfileRequest { uuid: c.uuid, profile_key: key_bytes(&c.profile_key) };
            r.push(req);
            proof {
                assert forall|j: int| 0 <= j < r@.len() implies request_view(#[trigger] r@[j])
                    == requests_for(model.contacts@, listed@.subrange(0, i + 1))[j] by {
                    if j < before.len() {
                        assert(r@[j] == before[j]);
                    }
                }
            }
        }
        i = i + 1;
    }
    assert(listed@.subrange(0, listed@.len() as int) =~= listed@);
    r
}

/// Takes in the contacts whose profiles were fetched: each one not yet known
/// is added to the model's directory.
pub fn update_contacts(model: &mut Model, fetched: Vec<Contact>)
    ensures
        final(model).contacts@ == contacts_after(old(model).contacts@, fetched@),
        final(model).account == old(model).account,
        final(model).channels@ == old(model).channels@,
        final(model).groups@ == old(model).groups@,
        final(model).mesh_to_signal@ == old(model).mesh_to_signal@,
        final(model).pending_since@ == old(model).pending_since@,
        final(model).running_state == old(model).running_state,
{
    let mut fetched = fetched;
    let ghost goal = contacts_after(model.contacts@, fetched@);
    while fetched.len() > 0
        invariant
            contacts_after(model.contacts@, fetched@) == goal,
            model.account == old(model).account,
            model.channels@ == old(model).channels@,
            model.groups@ == old(model).groups@,
            model.mesh_to_signal@ == old(model).mesh_to_signal@,
            model.pending_since@ == old(model).pending_since@,
            model.running_state == old(model).running_state,
        decreases fetched@.len(),
    {
        let ghost rest = fetched@;
        let c = fetched.remove(0);
        assert(fetched@ =~= rest.drop_first());
        if !model.contacts.contains_key(&c.uuid) {
            model.contacts.insert(c.uuid, c);
        }
    }
}

} // verus!
