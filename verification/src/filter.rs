//! The advertisement filter: the interest set of company identifiers
//! derived once from the configured devices, and the decision whether a
//! discovery event's manufacturer data passes it.

use vstd::prelude::*;
use crate::config::{BleDevice, spec_manufacturer_ids};

verus! {

/// The company identifiers of every configured device's declared
/// manufacturer, in configuration order; a device without a declared
/// manufacturer contributes none.
pub open spec fn spec_company_id_filter(devices: Seq<BleDevice>) -> Seq<u16>
    decreases devices.len(),
{
    if devices.len() == 0 {
        Seq::empty()
    } else {
        spec_company_id_filter(devices.drop_last()) + (match devices.last().manufacturer {
            Some(m) => spec_manufacturer_ids(m),
            None => Seq::empty(),
        })
    }
}

/// Whether some configured device declares a manufacturer whose company
/// identifiers carry `id`.
pub open spec fn interesting_company_id(devices: Seq<BleDevice>, id: u16) -> bool {
    exists|i: int|
        0 <= i < devices.len() && ((#[trigger] devices[i]).manufacturer matches Some(m)
            && spec_manufacturer_ids(m).contains(id))
}

/// Build the advertisement filter's interest set from the configured
/// devices.
pub fn company_id_filter(devices: &Vec<BleDevice>) -> (r: Vec<u16>)
    ensures
        r@ == spec_company_id_filter(devices@),
{
    let mut ids: Vec<u16> = Vec::new();
    let mut i: usize = 0;
    while i < devices.len()
        invariant
            i <= devices@.len(),
            ids@ == spec_company_id_filter(devices@.take(i as int)),
        decreases devices@.len() - i,
    {
        proof {
            assert(devices@.take(i as int + 1).drop_last() =~= devices@.take(i as int));
            assert(devices@.take(i as int + 1).last() == devices@[i as int]);
        }
        match &devices[i].manufacturer {
            Some(m) => {
                let mut more = m.company_ids();
                ids.append(&mut more);
            }
            None => {
                proof {
                    assert(ids@ =~= ids@ + Seq::<u16>::empty());
                }
            }
        }
        proof {
            assert(ids@ =~= spec_company_id_filter(devices@.take(i as int + 1)));
        }
        i = i + 1;
    }
    proof {
        assert(devices@.take(devices@.len() as int) =~= devices@);
    }
    ids
}

/// An identifier stands in the interest set exactly when some
/// configured device's declared manufacturer carries it.
pub proof fn lemma_company_id_filter_members(devices: Seq<BleDevice>, id: u16)
    ensures
        spec_company_id_filter(devices).contains(id) <==> interesting_company_id(devices, id),
    decreases devices.len(),
{
    if devices.len() > 0 {
        let rest = devices.drop_last();
        lemma_company_id_filter_members(rest, id);
        let whole = spec_company_id_filter(devices);
        let front = spec_company_id_filter(rest);
        let tail: Seq<u16> = match devices.last().manufacturer {
            Some(m) => spec_manufacturer_ids(m),
            None => Seq::empty(),
        };
        assert(whole == front + tail);
        if whole.contains(id) {
            let k = choose|k: int| 0 <= k < whole.len() && whole[k] == id;
            if k < front.len() {
                assert(front[k] == id);
                assert(front.contains(id));
                let i = choose|i: int|
                    0 <= i < rest.len() && ((#[trigger] rest[i]).manufacturer matches Some(m)
                        && spec_manufacturer_ids(m).contains(id));
                assert(devices[i] == rest[i]);
                assert(interesting_company_id(devices, id));
            } else {
                assert(tail[k - front.len()] == id);
                assert(tail.contains(id));
                assert(devices[devices.len() - 1] == devices.last());
                assert(interesting_company_id(devices, id));
            }
        }
        if interesting_company_id(devices, id) {
            let i = choose|i: int|
                0 <= i < devices.len() && ((#[trigger] devices[i]).manufacturer matches Some(m)
                    && spec_manufacturer_ids(m).contains(id));
            if i < devices.len() - 1 {
                assert(rest[i] == devices[i]);
                assert(interesting_company_id(rest, id));
                assert(front.contains(id));
                let k = choose|k: int| 0 <= k < front.len() && front[k] == id;
                assert(whole[k] == id);
                assert(whole.contains(id));
            } else {
                assert(tail.contains(id));
                let k = choose|k: int| 0 <= k < tail.len() && tail[k] == id;
                assert(whole[front.len() + k] == id);
                assert(whole.contains(id));
            }
        }
    }
}

/// Whether the identifier list holds `x`.
fn contains_u16(ids: &Vec<u16>, x: u16) -> (r: bool)
    ensures
        r == ids@.contains(x),
{
    let mut i: usize = 0;
    while i < ids.len()
        invariant
            i <= ids@.len(),
            forall|j: int| 0 <= j < i ==> ids@[j] != x,
        decreases ids@.len() - i,
    {
        if ids[i] == x {
            return true;
        }
        i = i + 1;
    }
    false
}

/// Whether a discovered advertisement passes the filter: its
/// manufacturer-data keys intersect the interest set. An event that
/// carried no properties has no keys and never matches.
pub open spec fn spec_matching_device(ids: Seq<u16>, keys: Option<Vec<u16>>) -> bool {
    match keys {
        Some(ks) => exists|k: int| 0 <= k < ks@.len() && ids.contains(#[trigger] ks@[k]),
        None => false,
    }
}

/// The advertisement filter's decision for one discovery event, given
/// the interest set and the event's manufacturer-data keys, if it had
/// properties at all.
pub fn matching_device(company_ids: &Vec<u16>, manufacturer_keys: &Option<Vec<u16>>) -> (r: bool)
    ensures
        r == spec_matching_device(company_ids@, *manufacturer_keys),
{
    match manufacturer_keys {
        Some(keys) => {
            let mut k: usize = 0;
            while k < keys.len()
                invariant
                    k <= keys@.len(),
                    *manufacturer_keys matches Some(ks) && ks@ == keys@,
                    forall|j: int| 0 <= j < k ==> !company_ids@.contains(#[trigger] keys@[j]),
                decreases keys@.len() - k,
            {
                if contains_u16(company_ids, keys[k]) {
                    proof {
                        assert(company_ids@.contains(keys@[k as int]));
                        assert(*manufacturer_keys matches Some(ks) && ks@ == keys@);
                        assert(spec_matching_device(company_ids@, *manufacturer_keys));
                    }
                    return true;
                }
                k = k + 1;
            }
            false
        }
        None => false,
    }
}

} // verus!
