//! The network interfaces offered to the user.

use vstd::prelude::*;
use vstd::string::*;

use crate::state::InterfaceInfo;
use crate::text;
use crate::text::{digits_text, same_text};

verus! {

/// An address of an interface. Of an IPv6 address nothing is kept: only IPv4 is offered.
#[derive(Debug, Clone, Copy)]
pub enum InterfaceAddr {
    V4([u8; 4]),
    V6,
}

/// One address of one interface, as the system lists them.
#[derive(Debug)]
pub struct RawInterface {
    pub name: String,
    pub addr: InterfaceAddr,
}

/// An interface by the characters of its name and of its addresses.
pub ghost struct InterfaceView {
    pub name: Seq<char>,
    pub ip_addresses: Seq<Seq<char>>,
}

impl View for InterfaceInfo {
    type V = InterfaceView;

    open spec fn view(&self) -> InterfaceView {
        InterfaceView { name: self.name@, ip_addresses: self.ip_addresses.deep_view() }
    }
}

/// The views of a list of interfaces.
pub open spec fn interface_views(infos: Seq<InterfaceInfo>) -> Seq<InterfaceView> {
    infos.map_values(|info: InterfaceInfo| info@)
}

/// The dotted form of an IPv4 address.
pub open spec fn dotted(octets: Seq<u8>) -> Seq<char> {
    text::decimal(octets[0] as nat) + "."@ + text::decimal(octets[1] as nat) + "."@
        + text::decimal(octets[2] as nat) + "."@ + text::decimal(octets[3] as nat)
}

/// Whether an address is offered, which those of the loopback network `127.0.0.0/8` are not.
pub open spec fn is_offered(raw: RawInterface) -> bool {
    raw.addr matches InterfaceAddr::V4(octets) && octets[0] != 127
}

/// The text of an offered address.
pub open spec fn address_of(raw: RawInterface) -> Seq<char> {
    match raw.addr {
        InterfaceAddr::V4(octets) => dotted(octets@),
        InterfaceAddr::V6 => Seq::empty(),
    }
}

/// The names of the interfaces that have an offered address, each once, in the order in
/// which they first occur.
pub open spec fn offered_names(raw: Seq<RawInterface>) -> Seq<Seq<char>>
    decreases raw.len(),
{
    if raw.len() == 0 {
        Seq::empty()
    } else {
        let names = offered_names(raw.drop_last());
        if is_offered(raw.last()) && !names.contains(raw.last().name@) {
            names.push(raw.last().name@)
        } else {
            names
        }
    }
}

/// The offered addresses of one interface, in order.
pub open spec fn addresses_of(raw: Seq<RawInterface>, name: Seq<char>) -> Seq<Seq<char>>
    decreases raw.len(),
{
    if raw.len() == 0 {
        Seq::empty()
    } else {
        let addresses = addresses_of(raw.drop_last(), name);
        if is_offered(raw.last()) && raw.last().name@ == name {
            addresses.push(address_of(raw.last()))
        } else {
            addresses
        }
    }
}

/// The interfaces with an offered address, each with all of them.
pub open spec fn grouped(raw: Seq<RawInterface>) -> Seq<InterfaceView> {
    offered_names(raw).map_values(
        |name: Seq<char>| InterfaceView { name, ip_addresses: addresses_of(raw, name) },
    )
}

/// Writes an IPv4 address in its dotted form.
fn dotted_text(octets: [u8; 4]) -> (res: String)
    ensures
        res@ == dotted(octets@),
{
    digits_text(octets[0] as u128, 10).concat(".").concat(
        digits_text(octets[1] as u128, 10).as_str(),
    ).concat(".").concat(digits_text(octets[2] as u128, 10).as_str()).concat(".").concat(
        digits_text(octets[3] as u128, 10).as_str(),
    )
}

/// The position of the interface of the given name.
fn position_of(infos: &Vec<InterfaceInfo>, name: &str) -> (res: Option<usize>)
    ensures
        match res {
            Some(i) => i < infos@.len() && infos@[i as int].name@ == name@,
            None => forall|i: int| 0 <= i < infos@.len() ==> (#[trigger] infos@[i]).name@ != name@,
        },
{
    let mut i: usize = 0;
    while i < infos.len()
        invariant
            i <= infos@.len(),
            forall|j: int| 0 <= j < i ==> (#[trigger] infos@[j]).name@ != name@,
        decreases infos@.len() - i,
    {
        if same_text(infos[i].name.as_str(), name) {
            return Some(i);
        }
        i = i + 1;
    }
    None
}

/// Groups addresses by interface. Loopback and IPv6 addresses are left out, and with them
/// the interfaces that have no other.
fn group(raw: Vec<RawInterface>) -> (res: Vec<InterfaceInfo>)
    ensures
        interface_views(res@) == grouped(raw@),
{
    let mut res: Vec<InterfaceInfo> = Vec::new();
    let mut i: usize = 0;
    assert(interface_views(res@) =~= grouped(raw@.take(0)));
    while i < raw.len()
        invariant
            i <= raw@.len(),
            interface_views(res@) == grouped(raw@.take(i as int)),
        decreases raw@.len() - i,
    {
        let ghost seen = raw@.take(i as int);
        let ghost next = raw@.take(i + 1);
        let ghost before = res@;
        let entry = &raw[i];
        proof {
            assert(next.drop_last() =~= seen);
            assert(next.last() == *entry);
        }
        match entry.addr {
            InterfaceAddr::V4(octets) if octets[0] != 127 => {
                let ip = dotted_text(octets);
                match position_of(&res, entry.name.as_str()) {
                    Some(at) => {
                        res[at].ip_addresses.push(ip);
                        proof {
                            assert(res@[at as int].ip_addresses.deep_view()
                                =~= before[at as int].ip_addresses.deep_view().push(
                                address_of(*entry),
                            ));
                            lemma_added_to_group(seen, next, before, res@, at as int);
                        }
                    },
                    None => {
                        let mut ip_addresses: Vec<String> = Vec::new();
                        ip_addresses.push(ip);
                        res.push(InterfaceInfo { name: entry.name.clone(), ip_addresses });
                        proof {
                            assert(res@.last().ip_addresses.deep_view()
                                =~= seq![address_of(*entry)]);
                            lemma_added_as_group(seen, next, before, res@);
                        }
                    },
                }
            },
            _ => {
                assert(!is_offered(*entry));
                assert(grouped(next) =~= grouped(seen));
            },
        }
        i = i + 1;
    }
    assert(raw@.take(i as int) =~= raw@);
    res
}

/// The interfaces that the user can choose from, made of what the system lists or of the
/// reason why it lists nothing.
pub fn get_interfaces(listed: Result<Vec<RawInterface>, String>) -> (res: Result<
    Vec<InterfaceInfo>,
    String,
>)
    ensures
        match listed {
            Ok(raw) => res matches Ok(infos) && interface_views(infos@) == grouped(raw@),
            Err(error) => res matches Err(reason) && reason@
                == "Impossibile enumerare interfacce: "@ + error@,
        },
{
    match listed {
        Ok(raw) => Ok(group(raw)),
        Err(error) => Err("Impossibile enumerare interfacce: ".to_string().concat(error.as_str())),
    }
}

pub(crate) proof fn lemma_names_distinct(raw: Seq<RawInterface>)
    ensures
        offered_names(raw).no_duplicates(),
    decreases raw.len(),
{
    if raw.len() > 0 {
        lemma_names_distinct(raw.drop_last());
    }
}

proof fn lemma_groups_by_index(infos: Seq<InterfaceInfo>, raw: Seq<RawInterface>)
    requires
        interface_views(infos) == grouped(raw),
    ensures
        infos.len() == offered_names(raw).len(),
        forall|j: int|
            0 <= j < infos.len() ==> {
                &&& (#[trigger] infos[j]).name@ == offered_names(raw)[j]
                &&& infos[j].ip_addresses.deep_view() == addresses_of(raw, infos[j].name@)
            },
{
    assert(interface_views(infos).len() == infos.len());
    assert(grouped(raw).len() == offered_names(raw).len());
    assert forall|j: int| 0 <= j < infos.len() implies {
        &&& (#[trigger] infos[j]).name@ == offered_names(raw)[j]
        &&& infos[j].ip_addresses.deep_view() == addresses_of(raw, infos[j].name@)
    } by {
        assert(interface_views(infos)[j] == infos[j]@);
        assert(grouped(raw)[j].name == offered_names(raw)[j]);
    }
}

proof fn lemma_added_to_group(
    seen: Seq<RawInterface>,
    next: Seq<RawInterface>,
    before: Seq<InterfaceInfo>,
    after: Seq<InterfaceInfo>,
    at: int,
)
    requires
        next.len() > 0,
        next.drop_last() == seen,
        is_offered(next.last()),
        interface_views(before) == grouped(seen),
        0 <= at < before.len(),
        before[at].name@ == next.last().name@,
        after.len() == before.len(),
        forall|j: int| 0 <= j < before.len() && j != at ==> after[j] == before[j],
        after[at].name == before[at].name,
        after[at].ip_addresses.deep_view() == before[at].ip_addresses.deep_view().push(
            address_of(next.last()),
        ),
    ensures
        interface_views(after) == grouped(next),
{
    lemma_names_distinct(seen);
    lemma_groups_by_index(before, seen);
    let names = offered_names(seen);
    assert(names[at] == next.last().name@);
    assert(names.contains(next.last().name@));
    assert(offered_names(next) == names);
    assert forall|j: int| 0 <= j < after.len() implies interface_views(after)[j] == grouped(next)[j]
    by {
        assert(before[j].name@ == names[j]);
        if j != at {
            assert(after[j] == before[j]);
            assert(names[j] != names[at]);
        }
    }
    assert(interface_views(after) =~= grouped(next));
}

proof fn lemma_added_as_group(
    seen: Seq<RawInterface>,
    next: Seq<RawInterface>,
    before: Seq<InterfaceInfo>,
    after: Seq<InterfaceInfo>,
)
    requires
        next.len() > 0,
        next.drop_last() == seen,
        is_offered(next.last()),
        interface_views(before) == grouped(seen),
        forall|j: int| 0 <= j < before.len() ==> (#[trigger] before[j]).name@ != next.last().name@,
        after.len() == before.len() + 1,
        forall|j: int| 0 <= j < before.len() ==> after[j] == before[j],
        after.last().name@ == next.last().name@,
        after.last().ip_addresses.deep_view() == seq![address_of(next.last())],
    ensures
        interface_views(after) == grouped(next),
{
    lemma_groups_by_index(before, seen);
    let names = offered_names(seen);
    let name = next.last().name@;
    assert forall|j: int| 0 <= j < names.len() implies names[j] != name by {
        assert(before[j].name@ == names[j]);
    }
    lemma_unlisted_has_no_address(seen, name);
    assert(offered_names(next) =~= names.push(name));
    assert(addresses_of(next, name) =~= seq![address_of(next.last())]);
    assert forall|j: int| 0 <= j < after.len() implies interface_views(after)[j] == grouped(next)[j]
    by {
        if j < before.len() {
            assert(after[j] == before[j]);
            assert(before[j].name@ == names[j]);
        }
    }
    assert(interface_views(after) =~= grouped(next));
}

pub(crate) proof fn lemma_unlisted_has_no_address(raw: Seq<RawInterface>, name: Seq<char>)
    requires
        !offered_names(raw).contains(name),
    ensures
        addresses_of(raw, name) == Seq::<Seq<char>>::empty(),
    decreases raw.len(),
{
    if raw.len() > 0 {
        let names = offered_names(raw.drop_last());
        if names.contains(name) {
            let j = choose|j: int| 0 <= j < names.len() && names[j] == name;
            assert(offered_names(raw)[j] == name);
        }
        if is_offered(raw.last()) && raw.last().name@ == name {
            assert(offered_names(raw).last() == name);
            assert(offered_names(raw).contains(name));
        }
        lemma_unlisted_has_no_address(raw.drop_last(), name);
    }
}

pub(crate) proof fn lemma_offered_is_listed(raw: Seq<RawInterface>, i: int)
    requires
        0 <= i < raw.len(),
        is_offered(raw[i]),
    ensures
        offered_names(raw).contains(raw[i].name@),
        addresses_of(raw, raw[i].name@).contains(address_of(raw[i])),
    decreases raw.len(),
{
    let name = raw[i].name@;
    let names = offered_names(raw.drop_last());
    let addresses = addresses_of(raw.drop_last(), name);
    if i < raw.len() - 1 {
        lemma_offered_is_listed(raw.drop_last(), i);
        let n = choose|n: int| 0 <= n < names.len() && names[n] == name;
        assert(offered_names(raw)[n] == name);
        let a = choose|a: int| 0 <= a < addresses.len() && addresses[a] == address_of(raw[i]);
        assert(addresses_of(raw, name)[a] == address_of(raw[i]));
    } else {
        assert(addresses_of(raw, name).last() == address_of(raw[i]));
        if !names.contains(name) {
            assert(offered_names(raw).last() == name);
        }
    }
}

pub(crate) proof fn lemma_listed_has_address(raw: Seq<RawInterface>, n: int)
    requires
        0 <= n < offered_names(raw).len(),
    ensures
        addresses_of(raw, offered_names(raw)[n]).len() > 0,
    decreases raw.len(),
{
    if n < offered_names(raw.drop_last()).len() {
        lemma_listed_has_address(raw.drop_last(), n);
    }
}

pub(crate) proof fn lemma_listed_is_offered(raw: Seq<RawInterface>, name: Seq<char>, k: int)
    requires
        0 <= k < addresses_of(raw, name).len(),
    ensures
        exists|i: int|
            0 <= i < raw.len() && is_offered(#[trigger] raw[i]) && raw[i].name@ == name
                && address_of(raw[i]) == addresses_of(raw, name)[k],
    decreases raw.len(),
{
    let before = raw.drop_last();
    if k < addresses_of(before, name).len() {
        lemma_listed_is_offered(before, name, k);
        let i = choose|i: int|
            0 <= i < before.len() && is_offered(#[trigger] before[i]) && before[i].name@ == name
                && address_of(before[i]) == addresses_of(before, name)[k];
        assert(raw[i] == before[i]);
    } else {
        assert(is_offered(raw[raw.len() - 1]));
    }
}

} // verus!
