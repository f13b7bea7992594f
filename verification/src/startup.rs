//! Choosing the address that both services bind to.
//!
//! The caller enumerates the local interfaces, shows the operator the
//! labels of the IPv4 addresses among them, and hands back the label that
//! was picked. The ingestion service and the query service then listen on
//! that address, each on its own fixed port.

use vstd::prelude::*;
use vstd::string::StringExecFns;
use crate::failure::Failure;

verus! {

/// One address of a local interface, as text.
pub struct Interface {
    pub name: String,
    pub address: String,
    pub is_ipv4: bool,
}

pub struct InterfaceView {
    pub name: Seq<char>,
    pub address: Seq<char>,
    pub is_ipv4: bool,
}

impl View for Interface {
    type V = InterfaceView;

    open spec fn view(&self) -> InterfaceView {
        InterfaceView { name: self.name@, address: self.address@, is_ipv4: self.is_ipv4 }
    }
}

/// An address on offer, with the label that the operator sees.
pub struct Choice {
    pub label: String,
    pub address: String,
}

pub struct ChoiceView {
    pub label: Seq<char>,
    pub address: Seq<char>,
}

impl View for Choice {
    type V = ChoiceView;

    open spec fn view(&self) -> ChoiceView {
        ChoiceView { label: self.label@, address: self.address@ }
    }
}

/// Where the two services listen.
pub struct Endpoints {
    pub ingestion: String,
    pub query: String,
}

/// The address, an arrow, and the interface's name.
pub open spec fn label_of(address: Seq<char>, name: Seq<char>) -> Seq<char> {
    address + " <- "@ + name
}

pub open spec fn choice_of(interface: InterfaceView) -> ChoiceView {
    ChoiceView {
        label: label_of(interface.address, interface.name),
        address: interface.address,
    }
}

/// The IPv4 addresses among `interfaces`, in their order, each with its
/// label.
pub open spec fn choices_of(interfaces: Seq<InterfaceView>) -> Seq<ChoiceView>
    decreases interfaces.len(),
{
    if interfaces.len() == 0 {
        Seq::empty()
    } else if interfaces.last().is_ipv4 {
        choices_of(interfaces.drop_last()).push(choice_of(interfaces.last()))
    } else {
        choices_of(interfaces.drop_last())
    }
}

/// The address that `label` stands for: that of the last choice with this
/// label, if there is one.
pub open spec fn address_for(choices: Seq<ChoiceView>, label: Seq<char>) -> Option<Seq<char>>
    decreases choices.len(),
{
    if choices.len() == 0 {
        None
    } else if choices.last().label == label {
        Some(choices.last().address)
    } else {
        address_for(choices.drop_last(), label)
    }
}

pub open spec fn choices_view(choices: Seq<Choice>) -> Seq<ChoiceView> {
    choices.map_values(|c: Choice| c@)
}

pub open spec fn interfaces_view(interfaces: Seq<Interface>) -> Seq<InterfaceView> {
    interfaces.map_values(|i: Interface| i@)
}

/// The label under which an address is offered.
pub fn choice_label(address: &String, name: &String) -> (label: String)
    ensures
        label@ == label_of(address@, name@),
{
    address.clone().concat(" <- ").concat(name.as_str())
}

/// The addresses to offer: the IPv4 ones, in the order of enumeration. It
/// fails only where there is none.
pub fn address_choices(interfaces: &Vec<Interface>) -> (result: Result<Vec<Choice>, Failure>)
    ensures
        choices_of(interfaces_view(interfaces@)).len() == 0 ==> result
            == Err::<Vec<Choice>, Failure>(Failure::NoIpv4Interface),
        choices_of(interfaces_view(interfaces@)).len() > 0 ==> result is Ok && choices_view(
            result->Ok_0@,
        ) == choices_of(interfaces_view(interfaces@)),
{
    let mut choices: Vec<Choice> = Vec::new();
    let mut i: usize = 0;
    while i < interfaces.len()
        invariant
            i <= interfaces.len(),
            choices_view(choices@) == choices_of(interfaces_view(interfaces@).take(i as int)),
        decreases interfaces.len() - i,
    {
        let interface = &interfaces[i];
        proof {
            let all = interfaces_view(interfaces@);
            assert(all.take(i + 1).drop_last() =~= all.take(i as int));
            assert(all.take(i + 1).last() == interface@);
        }
        if interface.is_ipv4 {
            let ghost before = choices@;
            choices.push(
                Choice {
                    label: choice_label(&interface.address, &interface.name),
                    address: interface.address.clone(),
                },
            );
            assert(choices_view(choices@) =~= choices_view(before).push(choice_of(interface@)));
        }
        i += 1;
    }
    assert(interfaces_view(interfaces@).take(i as int) =~= interfaces_view(interfaces@));
    if choices.len() == 0 {
        Err(Failure::NoIpv4Interface)
    } else {
        Ok(choices)
    }
}

/// The address behind the operator's pick. It fails where nothing was
/// picked, or something that was not on offer.
pub fn resolve_selection(choices: &Vec<Choice>, selection: Option<String>) -> (result: Result<
    String,
    Failure,
>)
    ensures
        match selection {
            Some(label) => match address_for(choices_view(choices@), label@) {
                Some(address) => result is Ok && result->Ok_0@ == address,
                None => result == Err::<String, Failure>(Failure::NoSelection),
            },
            None => result == Err::<String, Failure>(Failure::NoSelection),
        },
{
    let label = match selection {
        Some(label) => label,
        None => {
            return Err(Failure::NoSelection);
        },
    };
    let mut i: usize = choices.len();
    assert(choices_view(choices@).take(i as int) =~= choices_view(choices@));
    while i > 0
        invariant
            i <= choices.len(),
            selection == Some(label),
            address_for(choices_view(choices@), label@) == address_for(
                choices_view(choices@).take(i as int),
                label@,
            ),
        decreases i,
    {
        let choice = &choices[i - 1];
        proof {
            let all = choices_view(choices@);
            assert(all.take(i as int).drop_last() =~= all.take(i - 1));
            assert(all.take(i as int).last() == choice@);
        }
        if choice.label == label {
            return Ok(choice.address.clone());
        }
        i -= 1;
    }
    Err(Failure::NoSelection)
}

/// The two socket addresses on `address`: port 7887 takes the pushed
/// temperature, port 7667 answers queries.
pub fn endpoints(address: &String) -> (endpoints: Endpoints)
    ensures
        endpoints.ingestion@ == address@ + ":7887"@,
        endpoints.query@ == address@ + ":7667"@,
{
    Endpoints {
        ingestion: address.clone().concat(":7887"),
        query: address.clone().concat(":7667"),
    }
}

/// Every address on offer is an IPv4 address of the enumeration, under the
/// label made of it and of its interface's name.
pub proof fn lemma_choices_are_ipv4_interfaces(interfaces: Seq<InterfaceView>, k: int)
    requires
        0 <= k < choices_of(interfaces).len(),
    ensures
        exists|i: int|
            0 <= i < interfaces.len() && (#[trigger] interfaces[i]).is_ipv4 && choices_of(
                interfaces,
            )[k] == choice_of(interfaces[i]),
    decreases interfaces.len(),
{
    let rest = interfaces.drop_last();
    if interfaces.last().is_ipv4 && k == choices_of(rest).len() {
        assert(choices_of(interfaces)[k] == choice_of(interfaces[interfaces.len() - 1]));
    } else {
        lemma_choices_are_ipv4_interfaces(rest, k);
        let i = choose|i: int|
            0 <= i < rest.len() && (#[trigger] rest[i]).is_ipv4 && choices_of(rest)[k]
                == choice_of(rest[i]);
        assert(interfaces[i] == rest[i]);
    }
}

/// A label that is on offer resolves to an address.
pub proof fn lemma_offered_label_resolves(choices: Seq<ChoiceView>, k: int)
    requires
        0 <= k < choices.len(),
    ensures
        address_for(choices, choices[k].label) is Some,
    decreases choices.len(),
{
    if choices.last().label != choices[k].label {
        lemma_offered_label_resolves(choices.drop_last(), k);
    }
}

} // verus!
