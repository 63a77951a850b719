//! The wire form of a state update: every field element rendered through the
//! canonical hexadecimal encoder, every sequence in the order of the diff.

use crate::felt::lemma_prefixed_hex_injective;
use crate::felt::prefixed_hex;
use crate::felt::Felt;
use crate::state::declared_values;
use crate::state::deployed_values;
use crate::state::entry_values;
use crate::state::felt_values;
use crate::state::keys_distinct;
use crate::state::nonce_values;
use crate::state::replaced_values;
use crate::state::storage_diff_values;
use crate::state::ClassHashes;
use crate::state::ContractNonce;
use crate::state::DeployedContract;
use crate::state::ReplacedClasses;
use crate::state::StateDiffModel;
use crate::state::StateUpdate;
use crate::state::StateUpdateModel;
use crate::state::StorageDiff;
use crate::state::StorageEntry;
use crate::state::ThinStateDiff;
use vstd::prelude::*;

verus! {

/// An entry of a state diff that pairs a key with what changed for it.
pub trait KeyedEntry {
    /// The value of the key.
    spec fn key(&self) -> nat;

    /// The value of what changed.
    spec fn change(&self) -> nat;

    /// The key as a field element.
    fn key_felt(&self) -> (f: Felt)
        ensures
            f@ == self.key(),
    ;

    /// What changed as a field element.
    fn change_felt(&self) -> (f: Felt)
        ensures
            f@ == self.change(),
    ;
}

impl KeyedEntry for DeployedContract {
    open spec fn key(&self) -> nat {
        self.address@
    }

    open spec fn change(&self) -> nat {
        self.class_hash@
    }

    fn key_felt(&self) -> (f: Felt) {
        self.address.0
    }

    fn change_felt(&self) -> (f: Felt) {
        self.class_hash
    }
}

impl KeyedEntry for ClassHashes {
    open spec fn key(&self) -> nat {
        self.class_hash@
    }

    open spec fn change(&self) -> nat {
        self.compiled_class_hash@
    }

    fn key_felt(&self) -> (f: Felt) {
        self.class_hash
    }

    fn change_felt(&self) -> (f: Felt) {
        self.compiled_class_hash.0
    }
}

impl KeyedEntry for ReplacedClasses {
    open spec fn key(&self) -> nat {
        self.contract_address@
    }

    open spec fn change(&self) -> nat {
        self.class_hash@
    }

    fn key_felt(&self) -> (f: Felt) {
        self.contract_address.0
    }

    fn change_felt(&self) -> (f: Felt) {
        self.class_hash
    }
}

impl KeyedEntry for ContractNonce {
    open spec fn key(&self) -> nat {
        self.contract_address@
    }

    open spec fn change(&self) -> nat {
        self.nonce@
    }

    fn key_felt(&self) -> (f: Felt) {
        self.contract_address.0
    }

    fn change_felt(&self) -> (f: Felt) {
        self.nonce
    }
}

impl KeyedEntry for StorageEntry {
    open spec fn key(&self) -> nat {
        self.key@
    }

    open spec fn change(&self) -> nat {
        self.value@
    }

    fn key_felt(&self) -> (f: Felt) {
        self.key.0
    }

    fn change_felt(&self) -> (f: Felt) {
        self.value.0
    }
}

/// The changed storage slots of one contract on the wire.
#[derive(Clone, Debug, PartialEq, Eq)]
pub struct WireStorageDiff {
    pub address: String,
    pub storage_entries: Vec<(String, String)>,
}

/// A state diff on the wire.
#[derive(Clone, Debug, PartialEq, Eq)]
pub struct WireStateDiff {
    pub deployed_contracts: Vec<(String, String)>,
    pub declared_classes: Vec<(String, String)>,
    pub deprecated_declared_classes: Vec<String>,
    pub nonces: Vec<(String, String)>,
    pub storage_diffs: Vec<WireStorageDiff>,
    pub replaced_classes: Vec<(String, String)>,
}

/// A state update on the wire.
#[derive(Clone, Debug, PartialEq, Eq)]
pub struct WireStateUpdate {
    pub block_hash: String,
    pub new_root: String,
    pub old_root: String,
    pub state_diff: WireStateDiff,
}

/// A state diff on the wire, as sequences of characters.
pub struct WireDiffModel {
    pub deployed_contracts: Seq<(Seq<char>, Seq<char>)>,
    pub declared_classes: Seq<(Seq<char>, Seq<char>)>,
    pub deprecated_declared_classes: Seq<Seq<char>>,
    pub nonces: Seq<(Seq<char>, Seq<char>)>,
    pub storage_diffs: Seq<(Seq<char>, Seq<(Seq<char>, Seq<char>)>)>,
    pub replaced_classes: Seq<(Seq<char>, Seq<char>)>,
}

/// A state update on the wire, as sequences of characters.
pub struct WireUpdateModel {
    pub block_hash: Seq<char>,
    pub new_root: Seq<char>,
    pub old_root: Seq<char>,
    pub state_diff: WireDiffModel,
}

/// The characters of a sequence of strings.
pub open spec fn texts(s: Seq<String>) -> Seq<Seq<char>> {
    Seq::new(s.len(), |i: int| s[i]@)
}

/// The characters of a sequence of pairs of strings.
pub open spec fn text_pairs(s: Seq<(String, String)>) -> Seq<(Seq<char>, Seq<char>)> {
    Seq::new(s.len(), |i: int| (s[i].0@, s[i].1@))
}

/// The characters of a sequence of storage diffs on the wire.
pub open spec fn text_storage(s: Seq<WireStorageDiff>) -> Seq<
    (Seq<char>, Seq<(Seq<char>, Seq<char>)>),
> {
    Seq::new(s.len(), |i: int| (s[i].address@, text_pairs(s[i].storage_entries@)))
}

impl View for WireStateDiff {
    type V = WireDiffModel;

    open spec fn view(&self) -> WireDiffModel {
        WireDiffModel {
            deployed_contracts: text_pairs(self.deployed_contracts@),
            declared_classes: text_pairs(self.declared_classes@),
            deprecated_declared_classes: texts(self.deprecated_declared_classes@),
            nonces: text_pairs(self.nonces@),
            storage_diffs: text_storage(self.storage_diffs@),
            replaced_classes: text_pairs(self.replaced_classes@),
        }
    }
}

impl View for WireStateUpdate {
    type V = WireUpdateModel;

    open spec fn view(&self) -> WireUpdateModel {
        WireUpdateModel {
            block_hash: self.block_hash@,
            new_root: self.new_root@,
            old_root: self.old_root@,
            state_diff: self.state_diff@,
        }
    }
}

/// The canonical wire forms of a sequence of values.
pub open spec fn rendered(values: Seq<nat>) -> Seq<Seq<char>> {
    Seq::new(values.len(), |i: int| prefixed_hex(values[i]))
}

/// The canonical wire forms of a sequence of pairs.
pub open spec fn rendered_pairs(values: Seq<(nat, nat)>) -> Seq<(Seq<char>, Seq<char>)> {
    Seq::new(values.len(), |i: int| (prefixed_hex(values[i].0), prefixed_hex(values[i].1)))
}

/// The canonical wire forms of the storage diffs.
pub open spec fn rendered_storage(values: Seq<(nat, Seq<(nat, nat)>)>) -> Seq<
    (Seq<char>, Seq<(Seq<char>, Seq<char>)>),
> {
    Seq::new(values.len(), |i: int| (prefixed_hex(values[i].0), rendered_pairs(values[i].1)))
}

/// The wire form of a state diff.
pub open spec fn rendered_diff(diff: StateDiffModel) -> WireDiffModel {
    WireDiffModel {
        deployed_contracts: rendered_pairs(diff.deployed_contracts),
        declared_classes: rendered_pairs(diff.declared_classes),
        deprecated_declared_classes: rendered(diff.deprecated_declared_classes),
        nonces: rendered_pairs(diff.nonces),
        storage_diffs: rendered_storage(diff.storage_diffs),
        replaced_classes: rendered_pairs(diff.replaced_classes),
    }
}

/// The wire form of a state update.
pub open spec fn rendered_update(update: StateUpdateModel) -> WireUpdateModel {
    WireUpdateModel {
        block_hash: prefixed_hex(update.block_hash),
        new_root: prefixed_hex(update.new_root),
        old_root: prefixed_hex(update.old_root),
        state_diff: rendered_diff(update.state_diff),
    }
}

/// The keys and changes of a sequence of entries.
pub open spec fn entry_pairs<E: KeyedEntry>(s: Seq<E>) -> Seq<(nat, nat)> {
    Seq::new(s.len(), |i: int| (s[i].key(), s[i].change()))
}

/// Renders a sequence of field elements, in order.
pub fn render_felts(items: &Vec<Felt>) -> (out: Vec<String>)
    ensures
        texts(out@) == rendered(felt_values(items@)),
{
    let mut out: Vec<String> = Vec::new();
    let mut i: usize = 0;
    while i < items.len()
        invariant
            0 <= i <= items.len(),
            out@.len() == i,
            forall|j: int| 0 <= j < i ==> out@[j]@ == prefixed_hex(items@[j]@),
        decreases items.len() - i,
    {
        out.push(items[i].to_prefixed_hex_str());
        i = i + 1;
    }
    assert(texts(out@) =~= rendered(felt_values(items@)));
    out
}

/// Renders a sequence of entries, in order: each key and each change in its
/// canonical wire form.
pub fn render_entries<E: KeyedEntry>(items: &Vec<E>) -> (out: Vec<(String, String)>)
    ensures
        text_pairs(out@) == rendered_pairs(entry_pairs(items@)),
{
    let mut out: Vec<(String, String)> = Vec::new();
    let mut i: usize = 0;
    while i < items.len()
        invariant
            0 <= i <= items.len(),
            out@.len() == i,
            forall|j: int|
                0 <= j < i ==> out@[j].0@ == prefixed_hex(items@[j].key()) && out@[j].1@
                    == prefixed_hex(items@[j].change()),
        decreases items.len() - i,
    {
        let key = items[i].key_felt().to_prefixed_hex_str();
        let change = items[i].change_felt().to_prefixed_hex_str();
        out.push((key, change));
        i = i + 1;
    }
    assert(text_pairs(out@) =~= rendered_pairs(entry_pairs(items@)));
    out
}

/// Renders the storage diffs, in order.
pub fn render_storage_diffs(items: &Vec<StorageDiff>) -> (out: Vec<WireStorageDiff>)
    ensures
        text_storage(out@) == rendered_storage(storage_diff_values(items@)),
{
    let mut out: Vec<WireStorageDiff> = Vec::new();
    let mut i: usize = 0;
    while i < items.len()
        invariant
            0 <= i <= items.len(),
            out@.len() == i,
            forall|j: int|
                0 <= j < i ==> out@[j].address@ == prefixed_hex(items@[j].address@) && text_pairs(
                    out@[j].storage_entries@,
                ) == rendered_pairs(entry_values(items@[j].storage_entries@)),
        decreases items.len() - i,
    {
        let item = &items[i];
        let address = item.address.to_prefixed_hex_str();
        let storage_entries = render_entries(&item.storage_entries);
        assert(entry_pairs(item.storage_entries@) =~= entry_values(item.storage_entries@));
        out.push(WireStorageDiff { address, storage_entries });
        i = i + 1;
    }
    assert(text_storage(out@) =~= rendered_storage(storage_diff_values(items@)));
    out
}

/// Renders a state diff: every field element through the canonical encoder,
/// every sequence in the order of the diff.
pub fn render_state_diff(diff: &ThinStateDiff) -> (out: WireStateDiff)
    ensures
        out@ == rendered_diff(diff@),
{
    assert(entry_pairs(diff.deployed_contracts@) =~= deployed_values(diff.deployed_contracts@));
    assert(entry_pairs(diff.declared_classes@) =~= declared_values(diff.declared_classes@));
    assert(entry_pairs(diff.nonces@) =~= nonce_values(diff.nonces@));
    assert(entry_pairs(diff.replaced_classes@) =~= replaced_values(diff.replaced_classes@));
    WireStateDiff {
        deployed_contracts: render_entries(&diff.deployed_contracts),
        declared_classes: render_entries(&diff.declared_classes),
        deprecated_declared_classes: render_felts(&diff.deprecated_declared_classes),
        nonces: render_entries(&diff.nonces),
        storage_diffs: render_storage_diffs(&diff.storage_diffs),
        replaced_classes: render_entries(&diff.replaced_classes),
    }
}

/// Renders a state update.
pub fn render_state_update(update: &StateUpdate) -> (out: WireStateUpdate)
    ensures
        out@ == rendered_update(update@),
{
    WireStateUpdate {
        block_hash: update.block_hash.to_prefixed_hex_str(),
        new_root: update.new_root.to_prefixed_hex_str(),
        old_root: update.old_root.to_prefixed_hex_str(),
        state_diff: render_state_diff(&update.state_diff),
    }
}

/// No two entries of the sequence have the same text as their first component.
pub open spec fn texts_distinct<V>(s: Seq<(Seq<char>, V)>) -> bool {
    forall|i: int, j: int| 0 <= i < j < s.len() ==> (#[trigger] s[i]).0 != (#[trigger] s[j]).0
}

/// Rendering keeps keys apart: where no key occurs twice among the values,
/// no text occurs twice among their wire forms.
pub proof fn lemma_rendered_pairs_distinct(values: Seq<(nat, nat)>)
    requires
        keys_distinct(values),
    ensures
        texts_distinct(rendered_pairs(values)),
{
    let out = rendered_pairs(values);
    assert forall|i: int, j: int| 0 <= i < j < out.len() implies (#[trigger] out[i]).0 != (
    #[trigger] out[j]).0 by {
        if out[i].0 == out[j].0 {
            lemma_prefixed_hex_injective(values[i].0, values[j].0);
            assert(values[i].0 != values[j].0);
        }
    }
}

/// On the wire, too, no contract has two storage diffs, and within a
/// contract's diff no slot occurs twice.
pub proof fn lemma_rendered_storage_distinct(diff: StateDiffModel)
    requires
        diff.wf(),
    ensures
        texts_distinct(rendered_diff(diff).storage_diffs),
        forall|i: int|
            0 <= i < rendered_diff(diff).storage_diffs.len() ==> texts_distinct(
                (#[trigger] rendered_diff(diff).storage_diffs[i]).1,
            ),
        texts_distinct(rendered_diff(diff).deployed_contracts),
        texts_distinct(rendered_diff(diff).declared_classes),
        texts_distinct(rendered_diff(diff).nonces),
        rendered_diff(diff).replaced_classes.len() == 0,
{
    let values = diff.storage_diffs;
    let out = rendered_diff(diff).storage_diffs;
    assert forall|i: int, j: int| 0 <= i < j < out.len() implies (#[trigger] out[i]).0 != (
    #[trigger] out[j]).0 by {
        if out[i].0 == out[j].0 {
            lemma_prefixed_hex_injective(values[i].0, values[j].0);
            assert(values[i].0 != values[j].0);
        }
    }
    assert forall|i: int| 0 <= i < out.len() implies texts_distinct((#[trigger] out[i]).1) by {
        assert(keys_distinct(values[i].1));
        lemma_rendered_pairs_distinct(values[i].1);
    }
    lemma_rendered_pairs_distinct(diff.deployed_contracts);
    lemma_rendered_pairs_distinct(diff.declared_classes);
    lemma_rendered_pairs_distinct(diff.nonces);
}

} // verus!
