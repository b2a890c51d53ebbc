use vstd::prelude::*;

verus! {

/// A 20-byte EVM account address.
pub type Address = [u8; 20];

/// One spot-market token of a network's metadata.
#[derive(Debug, Clone, Copy)]
pub struct SpotToken {
    /// The token's index on the exchange.
    pub index: u64,
    /// The ERC-20 contract that bridges the token, if there is one.
    pub evm_contract: Option<Address>,
}

/// Byte `k` of the system address of token `index`: `0x20`, eleven zero bytes,
/// then `index` as eight big-endian bytes.
pub open spec fn system_address_byte(index: u64, k: int) -> u8 {
    if k == 0 {
        0x20u8
    } else if k < 12 {
        0u8
    } else {
        (index >> ((19 - k) * 8) as u64) as u8
    }
}

/// The synthetic system address of token `index`.
pub open spec fn spec_system_address(index: u64) -> Seq<u8> {
    Seq::new(20, |k: int| system_address_byte(index, k))
}

/// The contract-to-system-address map that a token list yields; when two tokens
/// name the same contract, the later one wins.
pub open spec fn token_map(tokens: Seq<SpotToken>) -> Map<Seq<u8>, Seq<u8>>
    decreases tokens.len(),
{
    if tokens.len() == 0 {
        Map::empty()
    } else {
        let rest = token_map(tokens.drop_last());
        match tokens.last().evm_contract {
            Some(c) => rest.insert(c@, spec_system_address(tokens.last().index)),
            None => rest,
        }
    }
}

/// The map that a list of `(key, value)` entries stands for, later entries winning.
pub open spec fn entries_map(entries: Seq<(Address, Address)>) -> Map<Seq<u8>, Seq<u8>>
    decreases entries.len(),
{
    if entries.len() == 0 {
        Map::empty()
    } else {
        entries_map(entries.drop_last()).insert(entries.last().0@, entries.last().1@)
    }
}

/// Whether no two entries share a key.
pub open spec fn keys_unique(entries: Seq<(Address, Address)>) -> bool {
    forall|i: int, j: int| 0 <= i < j < entries.len() ==> entries[i].0@ != entries[j].0@
}

/// Replacing the value of an existing key changes the map at that key only.
proof fn lemma_entries_update(entries: Seq<(Address, Address)>, j: int, e: (Address, Address))
    requires
        keys_unique(entries),
        0 <= j < entries.len(),
        entries[j].0@ == e.0@,
    ensures
        entries_map(entries.update(j, e)) == entries_map(entries).insert(e.0@, e.1@),
    decreases entries.len(),
{
    let n = entries.len() - 1;
    let updated = entries.update(j, e);
    if j == n {
        assert(updated.drop_last() == entries.drop_last());
        assert(entries_map(updated) == entries_map(entries).insert(e.0@, e.1@));
    } else {
        assert(updated.drop_last() == entries.drop_last().update(j, e));
        lemma_entries_update(entries.drop_last(), j, e);
        assert(entries_map(updated) == entries_map(entries).insert(e.0@, e.1@));
    }
}

/// The synthetic address that stands for token `index`: byte 0 is `0x20`,
/// bytes 1 to 11 are zero, bytes 12 to 19 hold `index` big-endian.
pub fn system_address(index: u64) -> (r: Address)
    ensures
        r@ == spec_system_address(index),
{
    let r: Address = [
        0x20u8, 0, 0, 0, 0, 0, 0, 0, 0, 0, 0, 0,
        (index >> 56u64) as u8,
        (index >> 48u64) as u8,
        (index >> 40u64) as u8,
        (index >> 32u64) as u8,
        (index >> 24u64) as u8,
        (index >> 16u64) as u8,
        (index >> 8u64) as u8,
        index as u8,
    ];
    assert(r@ == spec_system_address(index)) by {
        assert(index >> 0u64 == index) by (bit_vector);
        assert forall|k: int| 0 <= k < 20 implies r@[k] == system_address_byte(index, k) by {
            if k == 19 {
                assert(index >> 0u64 == index) by (bit_vector);
            }
        }
    }
    r
}

/// Whether two addresses are the same bytes.
fn same_address(a: &Address, b: &Address) -> (r: bool)
    ensures
        r == (a@ == b@),
{
    let mut i: usize = 0;
    while i < 20
        invariant
            0 <= i <= 20,
            a@.len() == 20,
            b@.len() == 20,
            forall|k: int| 0 <= k < i ==> a@[k] == b@[k],
        decreases 20 - i,
    {
        if a[i] != b[i] {
            return false;
        }
        i = i + 1;
    }
    assert(a@ == b@);
    true
}

/// A frozen map from bridging ERC-20 contracts to their system addresses.
pub struct SystemAddressMap {
    entries: Vec<(Address, Address)>,
}

impl View for SystemAddressMap {
    type V = Map<Seq<u8>, Seq<u8>>;

    closed spec fn view(&self) -> Map<Seq<u8>, Seq<u8>> {
        entries_map(self.entries@)
    }
}

impl SystemAddressMap {
    pub closed spec fn wf(&self) -> bool {
        keys_unique(self.entries@)
    }

    /// The position of `contract` among the keys, if present.
    fn position(&self, contract: &Address) -> (r: Option<usize>)
        ensures
            r matches Some(j) ==> j < self.entries@.len() && self.entries@[j as int].0@ == contract@,
            r is None ==> forall|i: int| 0 <= i < self.entries@.len() ==> self.entries@[i].0@ != contract@,
    {
        let mut i: usize = 0;
        while i < self.entries.len()
            invariant
                0 <= i <= self.entries@.len(),
                forall|k: int| 0 <= k < i ==> self.entries@[k].0@ != contract@,
            decreases self.entries@.len() - i,
        {
            if same_address(&self.entries[i].0, contract) {
                return Some(i);
            }
            i = i + 1;
        }
        None
    }

    /// The system address that replaces `contract`, if it is a bridging contract.
    pub fn get(&self, contract: &Address) -> (r: Option<Address>)
        requires
            self.wf(),
        ensures
            r is Some <==> self@.contains_key(contract@),
            r matches Some(a) ==> a@ == self@[contract@],
    {
        proof {
            lemma_entries_lookup(self.entries@, contract@);
        }
        match self.position(contract) {
            Some(j) => Some(self.entries[j].1),
            None => None,
        }
    }

    /// The address a bridging transaction's contract is rewritten to before
    /// execution: its system address where it is a bridging contract, else itself.
    pub fn substitute(&self, address: &Address) -> (r: Address)
        requires
            self.wf(),
        ensures
            self@.contains_key(address@) ==> r@ == self@[address@],
            !self@.contains_key(address@) ==> r@ == address@,
    {
        match self.get(address) {
            Some(system) => system,
            None => *address,
        }
    }

    /// The number of bridging contracts in the map.
    pub fn len(&self) -> (r: usize)
        requires
            self.wf(),
        ensures
            r == self@.dom().len(),
    {
        proof {
            lemma_entries_len(self.entries@);
        }
        self.entries.len()
    }
}

/// A key's value comes from the one entry that holds it.
proof fn lemma_entries_lookup(entries: Seq<(Address, Address)>, key: Seq<u8>)
    requires
        keys_unique(entries),
    ensures
        entries_map(entries).contains_key(key) <==> exists|i: int| 0 <= i < entries.len() && entries[i].0@ == key,
        forall|i: int| 0 <= i < entries.len() && entries[i].0@ == key ==> entries_map(entries)[key] == entries[i].1@,
    decreases entries.len(),
{
    if entries.len() > 0 {
        let rest = entries.drop_last();
        lemma_entries_lookup(rest, key);
        if exists|i: int| 0 <= i < rest.len() && rest[i].0@ == key {
            let i = choose|i: int| 0 <= i < rest.len() && rest[i].0@ == key;
            assert(entries[i].0@ == key);
        }
        if exists|i: int| 0 <= i < entries.len() && entries[i].0@ == key {
            let i = choose|i: int| 0 <= i < entries.len() && entries[i].0@ == key;
            if i < entries.len() - 1 {
                assert(rest[i].0@ == key);
            }
        }
    }
}

/// With unique keys the map has one key per entry.
proof fn lemma_entries_len(entries: Seq<(Address, Address)>)
    requires
        keys_unique(entries),
    ensures
        entries_map(entries).dom().finite(),
        entries_map(entries).dom().len() == entries.len(),
    decreases entries.len(),
{
    if entries.len() > 0 {
        let rest = entries.drop_last();
        lemma_entries_len(rest);
        lemma_entries_lookup(rest, entries.last().0@);
        assert(!entries_map(rest).contains_key(entries.last().0@)) by {
            if entries_map(rest).contains_key(entries.last().0@) {
                let i = choose|i: int| 0 <= i < rest.len() && rest[i].0@ == entries.last().0@;
                assert(entries[i].0@ == entries[entries.len() - 1].0@);
            }
        }
    }
}

/// Builds the map from bridging ERC-20 contracts to system addresses out of a
/// network's token list; tokens without a contract are skipped, and when two
/// tokens name the same contract the later one wins.
pub fn erc20_contract_to_system_address(tokens: &Vec<SpotToken>) -> (r: SystemAddressMap)
    ensures
        r.wf(),
        r@ == token_map(tokens@),
{
    let mut map = SystemAddressMap { entries: Vec::new() };
    let mut i: usize = 0;
    while i < tokens.len()
        invariant
            0 <= i <= tokens@.len(),
            map.wf(),
            map@ == token_map(tokens@.take(i as int)),
        decreases tokens@.len() - i,
    {
        let token = tokens[i];
        assert(tokens@.take(i + 1).drop_last() == tokens@.take(i as int));
        assert(tokens@.take(i + 1).last() == token);
        if let Some(contract) = token.evm_contract {
            let addr = system_address(token.index);
            match map.position(&contract) {
                Some(j) => {
                    proof {
                        lemma_entries_update(map.entries@, j as int, (contract, addr));
                    }
                    map.entries.set(j, (contract, addr));
                },
                None => {
                    let ghost before = map.entries@;
                    map.entries.push((contract, addr));
                    assert(map.entries@.drop_last() == before);
                },
            }
        }
        i = i + 1;
    }
    assert(tokens@.take(tokens@.len() as int) == tokens@);
    map
}

} // verus!
