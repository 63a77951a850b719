//! State updates: the ledger's raw per-category change sets and the builder
//! of the wire-format state diff.

use crate::felt::prefixed_hex;
use crate::felt::Felt;
use vstd::prelude::*;

verus! {

/// A contract address in its wire position.
#[derive(Clone, Copy, Debug, PartialEq, Eq, Hash)]
pub struct ContractAddressHex(pub Felt);

/// A plain field element (hash, root, nonce or stored value) in its wire position.
#[derive(Clone, Copy, Debug, PartialEq, Eq, Hash)]
pub struct FeltHex(pub Felt);

/// A storage key in its wire position.
#[derive(Clone, Copy, Debug, PartialEq, Eq, Hash)]
pub struct PatriciaKeyHex(pub Felt);

impl View for ContractAddressHex {
    type V = nat;

    open spec fn view(&self) -> nat {
        self.0@
    }
}

impl View for FeltHex {
    type V = nat;

    open spec fn view(&self) -> nat {
        self.0@
    }
}

impl View for PatriciaKeyHex {
    type V = nat;

    open spec fn view(&self) -> nat {
        self.0@
    }
}

impl ContractAddressHex {
    /// Canonical wire form of the address.
    pub fn to_prefixed_hex_str(&self) -> (s: String)
        ensures
            s@ == prefixed_hex(self@),
    {
        self.0.to_prefixed_hex_str()
    }
}

impl FeltHex {
    /// Canonical wire form of the element.
    pub fn to_prefixed_hex_str(&self) -> (s: String)
        ensures
            s@ == prefixed_hex(self@),
    {
        self.0.to_prefixed_hex_str()
    }
}

impl PatriciaKeyHex {
    /// Canonical wire form of the key.
    pub fn to_prefixed_hex_str(&self) -> (s: String)
        ensures
            s@ == prefixed_hex(self@),
    {
        self.0.to_prefixed_hex_str()
    }
}

/// A contract deployed in the block, with the class it was deployed at.
#[derive(Clone, Copy, Debug, PartialEq, Eq)]
pub struct DeployedContract {
    pub address: ContractAddressHex,
    pub class_hash: Felt,
}

/// A class declared in the block, with the hash of its compiled form.
#[derive(Clone, Copy, Debug, PartialEq, Eq)]
pub struct ClassHashes {
    pub class_hash: Felt,
    pub compiled_class_hash: FeltHex,
}

/// A contract whose class was replaced in the block.
#[derive(Clone, Copy, Debug, PartialEq, Eq)]
pub struct ReplacedClasses {
    pub contract_address: ContractAddressHex,
    pub class_hash: Felt,
}

/// The nonce of a contract after the block.
#[derive(Clone, Copy, Debug, PartialEq, Eq)]
pub struct ContractNonce {
    pub contract_address: ContractAddressHex,
    pub nonce: Felt,
}

/// One changed storage slot.
#[derive(Clone, Copy, Debug, PartialEq, Eq)]
pub struct StorageEntry {
    pub key: PatriciaKeyHex,
    pub value: FeltHex,
}

/// The changed storage slots of one contract.
#[derive(Clone, Debug, PartialEq, Eq)]
pub struct StorageDiff {
    pub address: ContractAddressHex,
    pub storage_entries: Vec<StorageEntry>,
}

/// The wire-format state diff of a block.
#[derive(Clone, Debug, PartialEq, Eq)]
pub struct ThinStateDiff {
    pub deployed_contracts: Vec<DeployedContract>,
    pub declared_classes: Vec<ClassHashes>,
    pub deprecated_declared_classes: Vec<Felt>,
    pub nonces: Vec<ContractNonce>,
    pub storage_diffs: Vec<StorageDiff>,
    pub replaced_classes: Vec<ReplacedClasses>,
}

/// The delta from the previous snapshot to the one of a block.
#[derive(Clone, Debug, PartialEq, Eq)]
pub struct StateUpdate {
    pub block_hash: FeltHex,
    pub new_root: FeltHex,
    pub old_root: FeltHex,
    pub state_diff: ThinStateDiff,
}

/// What the ledger reports of a block: its change sets by category, each in
/// the order in which the ledger enumerates them.
#[derive(Clone, Debug, PartialEq, Eq)]
pub struct RawStateUpdate {
    pub block_hash: Felt,
    pub new_root: Felt,
    pub old_root: Felt,
    pub declared_classes: Vec<(Felt, Felt)>,
    pub cairo_0_declared_classes: Vec<Felt>,
    pub storage_updates: Vec<(Felt, Vec<(Felt, Felt)>)>,
    pub nonces: Vec<(Felt, Felt)>,
    pub deployed_contracts: Vec<(Felt, Felt)>,
}

/// A state diff as values: every field element by the number it denotes.
pub struct StateDiffModel {
    pub deployed_contracts: Seq<(nat, nat)>,
    pub declared_classes: Seq<(nat, nat)>,
    pub deprecated_declared_classes: Seq<nat>,
    pub nonces: Seq<(nat, nat)>,
    pub storage_diffs: Seq<(nat, Seq<(nat, nat)>)>,
    pub replaced_classes: Seq<(nat, nat)>,
}

/// A state update as values.
pub struct StateUpdateModel {
    pub block_hash: nat,
    pub new_root: nat,
    pub old_root: nat,
    pub state_diff: StateDiffModel,
}

/// The ledger's report of a block as values.
pub struct RawStateModel {
    pub block_hash: nat,
    pub new_root: nat,
    pub old_root: nat,
    pub declared_classes: Seq<(nat, nat)>,
    pub cairo_0_declared_classes: Seq<nat>,
    pub storage_updates: Seq<(nat, Seq<(nat, nat)>)>,
    pub nonces: Seq<(nat, nat)>,
    pub deployed_contracts: Seq<(nat, nat)>,
}

/// No two entries of the sequence have the same first component.
pub open spec fn keys_distinct<V>(s: Seq<(nat, V)>) -> bool {
    forall|i: int, j: int| 0 <= i < j < s.len() ==> (#[trigger] s[i]).0 != (#[trigger] s[j]).0
}

/// The values of a sequence of field elements.
pub open spec fn felt_values(s: Seq<Felt>) -> Seq<nat> {
    Seq::new(s.len(), |i: int| s[i]@)
}

/// The values of a sequence of field elements in their wire position.
pub open spec fn felt_hex_values(s: Seq<FeltHex>) -> Seq<nat> {
    Seq::new(s.len(), |i: int| s[i]@)
}

/// The values of a sequence of pairs of field elements.
pub open spec fn pair_values(s: Seq<(Felt, Felt)>) -> Seq<(nat, nat)> {
    Seq::new(s.len(), |i: int| (s[i].0@, s[i].1@))
}

/// The values of the ledger's storage changes.
pub open spec fn storage_values(s: Seq<(Felt, Vec<(Felt, Felt)>)>) -> Seq<(nat, Seq<(nat, nat)>)> {
    Seq::new(s.len(), |i: int| (s[i].0@, pair_values(s[i].1@)))
}

/// The values of a sequence of deployed contracts.
pub open spec fn deployed_values(s: Seq<DeployedContract>) -> Seq<(nat, nat)> {
    Seq::new(s.len(), |i: int| (s[i].address@, s[i].class_hash@))
}

/// The values of a sequence of declared classes.
pub open spec fn declared_values(s: Seq<ClassHashes>) -> Seq<(nat, nat)> {
    Seq::new(s.len(), |i: int| (s[i].class_hash@, s[i].compiled_class_hash@))
}

/// The values of a sequence of replaced classes.
pub open spec fn replaced_values(s: Seq<ReplacedClasses>) -> Seq<(nat, nat)> {
    Seq::new(s.len(), |i: int| (s[i].contract_address@, s[i].class_hash@))
}

/// The values of a sequence of nonces.
pub open spec fn nonce_values(s: Seq<ContractNonce>) -> Seq<(nat, nat)> {
    Seq::new(s.len(), |i: int| (s[i].contract_address@, s[i].nonce@))
}

/// The values of a sequence of storage entries.
pub open spec fn entry_values(s: Seq<StorageEntry>) -> Seq<(nat, nat)> {
    Seq::new(s.len(), |i: int| (s[i].key@, s[i].value@))
}

/// The values of a sequence of storage diffs.
pub open spec fn storage_diff_values(s: Seq<StorageDiff>) -> Seq<(nat, Seq<(nat, nat)>)> {
    Seq::new(s.len(), |i: int| (s[i].address@, entry_values(s[i].storage_entries@)))
}

impl View for ThinStateDiff {
    type V = StateDiffModel;

    open spec fn view(&self) -> StateDiffModel {
        StateDiffModel {
            deployed_contracts: deployed_values(self.deployed_contracts@),
            declared_classes: declared_values(self.declared_classes@),
            deprecated_declared_classes: felt_values(self.deprecated_declared_classes@),
            nonces: nonce_values(self.nonces@),
            storage_diffs: storage_diff_values(self.storage_diffs@),
            replaced_classes: replaced_values(self.replaced_classes@),
        }
    }
}

impl View for StateUpdate {
    type V = StateUpdateModel;

    open spec fn view(&self) -> StateUpdateModel {
        StateUpdateModel {
            block_hash: self.block_hash@,
            new_root: self.new_root@,
            old_root: self.old_root@,
            state_diff: self.state_diff@,
        }
    }
}

impl View for RawStateUpdate {
    type V = RawStateModel;

    open spec fn view(&self) -> RawStateModel {
        RawStateModel {
            block_hash: self.block_hash@,
            new_root: self.new_root@,
            old_root: self.old_root@,
            declared_classes: pair_values(self.declared_classes@),
            cairo_0_declared_classes: felt_values(self.cairo_0_declared_classes@),
            storage_updates: storage_values(self.storage_updates@),
            nonces: pair_values(self.nonces@),
            deployed_contracts: pair_values(self.deployed_contracts@),
        }
    }
}

impl RawStateModel {
    /// What a ledger that keeps its changes in maps reports: within each
    /// category every key occurs once, and a contract is listed under the
    /// storage changes only with at least one changed slot.
    pub open spec fn wf(self) -> bool {
        &&& keys_distinct(self.deployed_contracts)
        &&& keys_distinct(self.declared_classes)
        &&& self.cairo_0_declared_classes.no_duplicates()
        &&& keys_distinct(self.nonces)
        &&& keys_distinct(self.storage_updates)
        &&& forall|i: int|
            0 <= i < self.storage_updates.len() ==> {
                &&& keys_distinct((#[trigger] self.storage_updates[i]).1)
                &&& self.storage_updates[i].1.len() > 0
            }
    }

    /// Whether the block changed at least one storage slot of the contract.
    pub open spec fn changes_storage_of(self, address: nat) -> bool {
        exists|i: int|
            0 <= i < self.storage_updates.len() && (#[trigger] self.storage_updates[i]).0
                == address && self.storage_updates[i].1.len() > 0
    }
}

impl StateDiffModel {
    /// Within each sequence the key component occurs once, and no class is
    /// reported as replaced.
    pub open spec fn wf(self) -> bool {
        &&& keys_distinct(self.deployed_contracts)
        &&& keys_distinct(self.declared_classes)
        &&& self.deprecated_declared_classes.no_duplicates()
        &&& keys_distinct(self.nonces)
        &&& keys_distinct(self.storage_diffs)
        &&& forall|i: int|
            0 <= i < self.storage_diffs.len() ==> keys_distinct(
                (#[trigger] self.storage_diffs[i]).1,
            )
        &&& self.replaced_classes.len() == 0
    }
}

/// The state diff that belongs to a raw report: every category in the
/// ledger's order, and no replaced classes.
pub open spec fn state_diff_of(raw: RawStateModel) -> StateDiffModel {
    StateDiffModel {
        deployed_contracts: raw.deployed_contracts,
        declared_classes: raw.declared_classes,
        deprecated_declared_classes: raw.cairo_0_declared_classes,
        nonces: raw.nonces,
        storage_diffs: raw.storage_updates,
        replaced_classes: Seq::empty(),
    }
}

/// The state update that belongs to a raw report.
pub open spec fn state_update_of(raw: RawStateModel) -> StateUpdateModel {
    StateUpdateModel {
        block_hash: raw.block_hash,
        new_root: raw.new_root,
        old_root: raw.old_root,
        state_diff: state_diff_of(raw),
    }
}

/// The deployed contracts of a block in wire form.
pub fn deployed_contracts_of(raw: &Vec<(Felt, Felt)>) -> (out: Vec<DeployedContract>)
    ensures
        deployed_values(out@) == pair_values(raw@),
{
    let mut out: Vec<DeployedContract> = Vec::new();
    let mut i: usize = 0;
    while i < raw.len()
        invariant
            0 <= i <= raw.len(),
            out@.len() == i,
            forall|j: int|
                0 <= j < i ==> out@[j].address@ == raw@[j].0@ && out@[j].class_hash@ == raw@[j].1@,
        decreases raw.len() - i,
    {
        let (address, class_hash) = raw[i];
        out.push(DeployedContract { address: ContractAddressHex(address), class_hash });
        i = i + 1;
    }
    assert(deployed_values(out@) =~= pair_values(raw@));
    out
}

/// The declared classes of a block in wire form.
pub fn declared_classes_of(raw: &Vec<(Felt, Felt)>) -> (out: Vec<ClassHashes>)
    ensures
        declared_values(out@) == pair_values(raw@),
{
    let mut out: Vec<ClassHashes> = Vec::new();
    let mut i: usize = 0;
    while i < raw.len()
        invariant
            0 <= i <= raw.len(),
            out@.len() == i,
            forall|j: int|
                0 <= j < i ==> out@[j].class_hash@ == raw@[j].0@
                    && out@[j].compiled_class_hash@ == raw@[j].1@,
        decreases raw.len() - i,
    {
        let (class_hash, compiled_class_hash) = raw[i];
        out.push(ClassHashes { class_hash, compiled_class_hash: FeltHex(compiled_class_hash) });
        i = i + 1;
    }
    assert(declared_values(out@) =~= pair_values(raw@));
    out
}

/// The nonces changed in a block in wire form.
pub fn nonces_of(raw: &Vec<(Felt, Felt)>) -> (out: Vec<ContractNonce>)
    ensures
        nonce_values(out@) == pair_values(raw@),
{
    let mut out: Vec<ContractNonce> = Vec::new();
    let mut i: usize = 0;
    while i < raw.len()
        invariant
            0 <= i <= raw.len(),
            out@.len() == i,
            forall|j: int|
                0 <= j < i ==> out@[j].contract_address@ == raw@[j].0@ && out@[j].nonce@
                    == raw@[j].1@,
        decreases raw.len() - i,
    {
        let (address, nonce) = raw[i];
        out.push(ContractNonce { contract_address: ContractAddressHex(address), nonce });
        i = i + 1;
    }
    assert(nonce_values(out@) =~= pair_values(raw@));
    out
}

/// The changed slots of one contract in wire form.
pub fn storage_entries_of(raw: &Vec<(Felt, Felt)>) -> (out: Vec<StorageEntry>)
    ensures
        entry_values(out@) == pair_values(raw@),
{
    let mut out: Vec<StorageEntry> = Vec::new();
    let mut i: usize = 0;
    while i < raw.len()
        invariant
            0 <= i <= raw.len(),
            out@.len() == i,
            forall|j: int|
                0 <= j < i ==> out@[j].key@ == raw@[j].0@ && out@[j].value@ == raw@[j].1@,
        decreases raw.len() - i,
    {
        let (key, value) = raw[i];
        out.push(StorageEntry { key: PatriciaKeyHex(key), value: FeltHex(value) });
        i = i + 1;
    }
    assert(entry_values(out@) =~= pair_values(raw@));
    out
}

/// The storage changes of a block in wire form, one entry per listed contract.
pub fn storage_diffs_of(raw: &Vec<(Felt, Vec<(Felt, Felt)>)>) -> (out: Vec<StorageDiff>)
    ensures
        storage_diff_values(out@) == storage_values(raw@),
{
    let mut out: Vec<StorageDiff> = Vec::new();
    let mut i: usize = 0;
    while i < raw.len()
        invariant
            0 <= i <= raw.len(),
            out@.len() == i,
            forall|j: int|
                0 <= j < i ==> out@[j].address@ == raw@[j].0@ && entry_values(
                    out@[j].storage_entries@,
                ) == pair_values(raw@[j].1@),
        decreases raw.len() - i,
    {
        let update = &raw[i];
        let storage_entries = storage_entries_of(&update.1);
        out.push(StorageDiff { address: ContractAddressHex(update.0), storage_entries });
        i = i + 1;
    }
    assert(storage_diff_values(out@) =~= storage_values(raw@));
    out
}

/// A copy of a sequence of class hashes.
pub fn class_hashes_of(raw: &Vec<Felt>) -> (out: Vec<Felt>)
    ensures
        out@ == raw@,
{
    let mut out: Vec<Felt> = Vec::new();
    let mut i: usize = 0;
    while i < raw.len()
        invariant
            0 <= i <= raw.len(),
            out@ == raw@.take(i as int),
        decreases raw.len() - i,
    {
        out.push(raw[i]);
        assert(raw@.take(i + 1) == raw@.take(i as int).push(raw@[i as int]));
        i = i + 1;
    }
    assert(raw@.take(raw.len() as int) == raw@);
    out
}

/// Builds the wire-format state diff of a block from the ledger's report.
/// Every category keeps the ledger's order; replaced classes are not yet
/// sourced from the ledger and are always empty.
pub fn build_state_diff(raw: &RawStateUpdate) -> (diff: ThinStateDiff)
    ensures
        diff@ == state_diff_of(raw@),
        raw@.wf() ==> diff@.wf(),
{
    let diff = ThinStateDiff {
        deployed_contracts: deployed_contracts_of(&raw.deployed_contracts),
        declared_classes: declared_classes_of(&raw.declared_classes),
        deprecated_declared_classes: class_hashes_of(&raw.cairo_0_declared_classes),
        nonces: nonces_of(&raw.nonces),
        storage_diffs: storage_diffs_of(&raw.storage_updates),
        replaced_classes: Vec::new(),
    };
    assert(replaced_values(diff.replaced_classes@) =~= Seq::empty());
    proof {
        if raw@.wf() {
            lemma_state_diff_well_formed(raw@);
        }
    }
    diff
}

/// Builds the state update of a block from the ledger's report.
pub fn build_state_update(raw: &RawStateUpdate) -> (update: StateUpdate)
    ensures
        update@ == state_update_of(raw@),
        raw@.wf() ==> update@.state_diff.wf(),
{
    StateUpdate {
        block_hash: FeltHex(raw.block_hash),
        new_root: FeltHex(raw.new_root),
        old_root: FeltHex(raw.old_root),
        state_diff: build_state_diff(raw),
    }
}

/// The diff of a well-formed report is well formed: within each sequence no
/// key occurs twice.
pub proof fn lemma_state_diff_well_formed(raw: RawStateModel)
    requires
        raw.wf(),
    ensures
        state_diff_of(raw).wf(),
{
}

/// The diff holds exactly one storage entry for each contract with at least
/// one changed slot in the block, and none for any other contract.
pub proof fn lemma_one_storage_diff_per_changed_contract(raw: RawStateModel, address: nat)
    requires
        raw.wf(),
    ensures
        raw.changes_storage_of(address) <==> exists|i: int|
            0 <= i < state_diff_of(raw).storage_diffs.len() && (
            #[trigger] state_diff_of(raw).storage_diffs[i]).0 == address,
        forall|i: int, j: int|
            0 <= i < state_diff_of(raw).storage_diffs.len() && 0 <= j < state_diff_of(
                raw,
            ).storage_diffs.len() && (#[trigger] state_diff_of(raw).storage_diffs[i]).0 == address
                && (#[trigger] state_diff_of(raw).storage_diffs[j]).0 == address ==> i == j,
{
    let diffs = state_diff_of(raw).storage_diffs;
    assert forall|i: int, j: int|
        0 <= i < diffs.len() && 0 <= j < diffs.len() && (#[trigger] diffs[i]).0 == address && (
        #[trigger] diffs[j]).0 == address implies i == j by {
        if i < j {
            assert(diffs[i].0 != diffs[j].0);
        } else if j < i {
            assert(diffs[j].0 != diffs[i].0);
        }
    }
}

} // verus!
