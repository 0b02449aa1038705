//! The contract registry: descriptors of known contracts, loaded once from
//! configuration, resolved by exact name, and queried for the callable
//! functions their interface documents describe.

use vstd::prelude::*;

use crate::errors::WalletError;

verus! {

/// One entry of an interface document: its tag (`"function"`, `"event"`,
/// ...) and its name.
#[derive(Debug)]
pub struct AbiEntry {
    pub entry_type: String,
    pub name: String,
}

/// A known contract: a unique name, its on-chain address as bare hex, and
/// its interface document — `None` when the document could not be parsed.
#[derive(Debug)]
pub struct SmartContract {
    pub name: String,
    pub address: String,
    pub abi: Option<Vec<AbiEntry>>,
}

/// True of an entry that describes a callable function.
pub open spec fn is_function_entry(e: AbiEntry) -> bool {
    e.entry_type@ == "function"@
}

/// The names of the callable functions among a document's entries, in
/// document order.
pub open spec fn function_names(entries: Seq<AbiEntry>) -> Seq<Seq<char>>
    decreases entries.len(),
{
    if entries.len() == 0 {
        Seq::empty()
    } else if is_function_entry(entries.last()) {
        function_names(entries.drop_last()).push(entries.last().name@)
    } else {
        function_names(entries.drop_last())
    }
}

impl SmartContract {
    /// Build a descriptor from a name, an address, and the parsed interface
    /// document, or `None` where parsing it failed.
    pub fn new(name: String, address: String, abi: Option<Vec<AbiEntry>>) -> (r: SmartContract)
        ensures
            r.name == name,
            r.address == address,
            r.abi == abi,
    {
        SmartContract { name, address, abi }
    }

    /// This contract's name.
    pub fn get_name(&self) -> (r: &str)
        ensures
            r@ == self.name@,
    {
        self.name.as_str()
    }

    /// The names of the callable functions the interface document lists,
    /// in document order; empty when it lists none or failed to parse.
    pub fn get_functions(&self) -> (r: Vec<String>)
        ensures
            match self.abi {
                Some(entries) => r.deep_view() == function_names(entries@),
                None => r@.len() == 0,
            },
    {
        let mut result: Vec<String> = Vec::new();
        match &self.abi {
            None => result,
            Some(entries) => {
                let tag: String = "function".to_owned();
                let n = entries.len();
                let mut i: usize = 0;
                while i < n
                    invariant
                        i <= n,
                        n == entries@.len(),
                        tag@ == "function"@,
                        result.deep_view() == function_names(entries@.subrange(0, i as int)),
                    decreases n - i,
                {
                    let entry = &entries[i];
                    proof {
                        assert(entries@.subrange(0, i + 1).drop_last() =~= entries@.subrange(
                            0,
                            i as int,
                        ));
                        assert(entries@.subrange(0, i + 1).last() == entries@[i as int]);
                    }
                    if entry.entry_type == tag {
                        result.push(entry.name.clone());
                        proof {
                            assert(result.deep_view() =~= function_names(
                                entries@.subrange(0, i + 1),
                            ));
                        }
                    } else {
                        proof {
                            assert(result.deep_view() =~= function_names(
                                entries@.subrange(0, i + 1),
                            ));
                        }
                    }
                    i = i + 1;
                }
                proof {
                    assert(entries@.subrange(0, n as int) =~= entries@);
                }
                result
            },
        }
    }
}

/// No two descriptors share a name.
pub open spec fn unique_names(s: Seq<SmartContract>) -> bool {
    forall|i: int, j: int| 0 <= i < j < s.len() ==> s[i].name@ != s[j].name@
}

/// Every descriptor's interface document parsed.
pub open spec fn all_parsed(s: Seq<SmartContract>) -> bool {
    forall|i: int| 0 <= i < s.len() ==> (#[trigger] s[i].abi) is Some
}

/// The registry of known contracts, immutable once loaded.
#[derive(Debug)]
pub struct ContractsManager {
    pub contracts_list: Vec<SmartContract>,
}

impl ContractsManager {
    /// Build the registry from a sequence of descriptors. Fails with
    /// `DuplicateName` when two of them share a name, and otherwise with
    /// `MalformedInterface` when an interface document failed to parse;
    /// on success the registry holds the descriptors unchanged, in order.
    pub fn load(contracts: Vec<SmartContract>) -> (r: Result<ContractsManager, WalletError>)
        ensures
            r is Ok <==> unique_names(contracts@) && all_parsed(contracts@),
            r is Ok ==> r->Ok_0.contracts_list == contracts,
            !unique_names(contracts@) ==> r is Err && r->Err_0 == WalletError::DuplicateName,
            unique_names(contracts@) && !all_parsed(contracts@) ==> r is Err && r->Err_0
                == WalletError::MalformedInterface,
    {
        let n = contracts.len();
        let mut i: usize = 0;
        while i < n
            invariant
                i <= n,
                n == contracts@.len(),
                unique_names(contracts@.subrange(0, i as int)),
            decreases n - i,
        {
            let mut j: usize = 0;
            while j < i
                invariant
                    j <= i < n,
                    n == contracts@.len(),
                    forall|k: int| 0 <= k < j ==> contracts@[k].name@ != contracts@[i as int].name@,
                decreases i - j,
            {
                if contracts[j].name == contracts[i].name {
                    return Err(WalletError::DuplicateName);
                }
                j = j + 1;
            }
            proof {
                let pre = contracts@.subrange(0, i as int);
                let ext = contracts@.subrange(0, i + 1);
                assert forall|a: int, b: int| 0 <= a < b < ext.len() implies ext[a].name@
                    != ext[b].name@ by {
                    if b < i {
                        assert(pre[a].name@ != pre[b].name@);
                    }
                }
            }
            i = i + 1;
        }
        proof {
            assert(contracts@.subrange(0, n as int) =~= contracts@);
        }
        let mut k: usize = 0;
        while k < n
            invariant
                k <= n,
                n == contracts@.len(),
                unique_names(contracts@),
                forall|m: int| 0 <= m < k ==> (#[trigger] contracts@[m].abi) is Some,
            decreases n - k,
        {
            if contracts[k].abi.is_none() {
                return Err(WalletError::MalformedInterface);
            }
            k = k + 1;
        }
        Ok(ContractsManager { contracts_list: contracts })
    }

    /// A view of all loaded descriptors, in load order.
    pub fn get_contracts_list(&self) -> (r: &Vec<SmartContract>)
        ensures
            r == &self.contracts_list,
    {
        &self.contracts_list
    }

    /// Resolve a name to the first descriptor carrying it, by exact,
    /// case-sensitive match; `None` — a valid not-found answer, not an
    /// error — when no descriptor does.
    pub fn get_interface_by_contract_name(&self, name: &str) -> (r: Option<&SmartContract>)
        ensures
            r is Some <==> exists|i: int|
                0 <= i < self.contracts_list@.len() && (#[trigger] self.contracts_list@[i].name@)
                    == name@,
            match r {
                Some(c) => exists|i: int|
                    {
                        &&& 0 <= i < self.contracts_list@.len()
                        &&& (#[trigger] self.contracts_list@[i].name@) == name@
                        &&& *c == self.contracts_list@[i]
                        &&& forall|j: int| 0 <= j < i ==> self.contracts_list@[j].name@ != name@
                    },
                None => true,
            },
    {
        let wanted: String = name.to_owned();
        let n = self.contracts_list.len();
        let mut i: usize = 0;
        while i < n
            invariant
                i <= n,
                n == self.contracts_list@.len(),
                wanted@ == name@,
                forall|j: int| 0 <= j < i ==> self.contracts_list@[j].name@ != name@,
            decreases n - i,
        {
            if self.contracts_list[i].name == wanted {
                return Some(&self.contracts_list[i]);
            }
            i = i + 1;
        }
        None
    }
}

} // verus!
