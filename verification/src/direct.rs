//! The direct-device channel: in which order the known addresses of printer
//! devices are tried.

use vstd::prelude::*;
use crate::spooler::{queue, queue_of};
use crate::text::{chars_of, find, occurs};

verus! {

/// The characters of each address of `addresses`.
pub open spec fn address_texts(addresses: Seq<String>) -> Seq<Seq<char>> {
    addresses.map_values(|address: String| address@)
}

/// Those of `addresses`, in their order, that hold `name` (where `holding`
/// is true) or do not hold it (where it is false).
pub open spec fn selected(addresses: Seq<Seq<char>>, name: Seq<char>, holding: bool) -> Seq<
    Seq<char>,
>
    decreases addresses.len(),
{
    if addresses.len() == 0 {
        Seq::empty()
    } else if occurs(addresses.last(), name) == holding {
        selected(addresses.drop_last(), name, holding).push(addresses.last())
    } else {
        selected(addresses.drop_last(), name, holding)
    }
}

/// The order in which `addresses` are tried for the printer `printer_name`.
/// Where a printer is named, the addresses that hold its name come first;
/// those that do not follow. Where none is named (the name is empty or white
/// space), the addresses are tried in the order given. No address is left
/// out and none is tried twice.
pub open spec fn probe_order_of(printer_name: Seq<char>, addresses: Seq<Seq<char>>) -> Seq<
    Seq<char>,
> {
    match queue_of(printer_name) {
        Some(name) => selected(addresses, name, true) + selected(addresses, name, false),
        None => addresses,
    }
}

/// The addresses at the places `order` of `addresses`.
pub open spec fn picked(addresses: Seq<Seq<char>>, order: Seq<usize>) -> Seq<Seq<char>> {
    order.map_values(|place: usize| addresses[place as int])
}

/// Each address is selected either as holding the name or as not holding
/// it: the two selections together have as many addresses as there are.
pub proof fn lemma_selected_partitions(addresses: Seq<Seq<char>>, name: Seq<char>)
    ensures
        selected(addresses, name, true).len() + selected(addresses, name, false).len()
            == addresses.len(),
    decreases addresses.len(),
{
    if addresses.len() > 0 {
        lemma_selected_partitions(addresses.drop_last(), name);
    }
}

/// The order of probing leaves no address out and adds none.
pub proof fn lemma_probe_order_len(printer_name: Seq<char>, addresses: Seq<Seq<char>>)
    ensures
        probe_order_of(printer_name, addresses).len() == addresses.len(),
{
    if let Some(name) = queue_of(printer_name) {
        lemma_selected_partitions(addresses, name);
    }
}

/// Appends to `order` the places of those of `addresses` that hold `name`,
/// or of those that do not.
fn push_selected(order: &mut Vec<usize>, addresses: &[String], name: &[char], holding: bool)
    requires
        forall|i: int| 0 <= i < old(order)@.len() ==> old(order)@[i] < addresses@.len(),
    ensures
        forall|i: int| 0 <= i < final(order)@.len() ==> final(order)@[i] < addresses@.len(),
        picked(address_texts(addresses@), final(order)@) == picked(
            address_texts(addresses@),
            old(order)@,
        ) + selected(address_texts(addresses@), name@, holding),
{
    let count = addresses.len();
    let ghost texts = address_texts(addresses@);
    let mut i: usize = 0;
    while i < count
        invariant
            i <= count == addresses@.len(),
            texts == address_texts(addresses@),
            forall|k: int| 0 <= k < order@.len() ==> order@[k] < addresses@.len(),
            picked(texts, order@) == picked(texts, old(order)@) + selected(
                texts.take(i as int),
                name@,
                holding,
            ),
        decreases count - i,
    {
        let address = chars_of(addresses[i].as_str());
        let holds = find(address.as_slice(), name).is_some();
        proof {
            assert(texts.take(i + 1).drop_last() == texts.take(i as int));
            assert(texts.take(i + 1).last() == addresses@[i as int]@);
        }
        if holds == holding {
            let ghost before = order@;
            order.push(i);
            assert(picked(texts, order@) == picked(texts, before).push(texts[i as int]));
        }
        i += 1;
    }
    assert(texts.take(count as int) == texts);
}

/// The places of `addresses` in the order in which they are tried for the
/// printer `printer_name`, see [`probe_order_of`].
pub fn probe_order(printer_name: &str, addresses: &[String]) -> (order: Vec<usize>)
    ensures
        order@.len() == addresses@.len(),
        forall|i: int| 0 <= i < order@.len() ==> order@[i] < addresses@.len(),
        picked(address_texts(addresses@), order@) == probe_order_of(
            printer_name@,
            address_texts(addresses@),
        ),
{
    let mut order: Vec<usize> = Vec::new();
    let ghost texts = address_texts(addresses@);
    assert(picked(texts, order@) =~= Seq::empty());
    proof {
        lemma_probe_order_len(printer_name@, texts);
    }
    match queue(printer_name) {
        Some(name) => {
            let wanted = chars_of(name);
            push_selected(&mut order, addresses, wanted.as_slice(), true);
            push_selected(&mut order, addresses, wanted.as_slice(), false);
        },
        None => {
            let count = addresses.len();
            let mut i: usize = 0;
            while i < count
                invariant
                    i <= count == addresses@.len(),
                    texts == address_texts(addresses@),
                    forall|k: int| 0 <= k < order@.len() ==> order@[k] < addresses@.len(),
                    picked(texts, order@) == texts.take(i as int),
                decreases count - i,
            {
                let ghost before = order@;
                order.push(i);
                assert(picked(texts, order@) == picked(texts, before).push(texts[i as int]));
                i += 1;
            }
            assert(texts.take(count as int) == texts);
        },
    }
    assert(picked(texts, order@).len() == order@.len());
    order
}

} // verus!
