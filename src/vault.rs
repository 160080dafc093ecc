//! Address-indexed keyfile storage with at most one record per address.
use vstd::prelude::*;
use crate::address::{address_of_text, address_text, is_address_text, parse_address, Address};
use crate::encoding::same_bytes;
use crate::error::VaultError;
use crate::keyfile::{account_data, apply_update, patched, uuid_text, AccountData, AccountUpdate, Keyfile};
use vstd::string::StringSliceAdditionalSpecFns;

verus! {

/// The records of a sequence by address; a later record wins.
pub open spec fn model_of(s: Seq<Keyfile>) -> Map<Seq<u8>, Keyfile>
    decreases s.len(),
{
    if s.len() == 0 {
        Map::empty()
    } else {
        model_of(s.drop_last()).insert(s.last().address.bytes@, s.last())
    }
}

/// No two records share an address.
pub open spec fn unique_addresses(s: Seq<Keyfile>) -> bool {
    forall|i: int, j: int|
        0 <= i < s.len() && 0 <= j < s.len() && i != j ==> s[i].address.bytes@
            != s[j].address.bytes@
}

proof fn lemma_model_lookup(s: Seq<Keyfile>, a: Seq<u8>)
    requires
        unique_addresses(s),
    ensures
        model_of(s).contains_key(a) <==> exists|i: int|
            0 <= i < s.len() && s[i].address.bytes@ == a,
        forall|i: int|
            0 <= i < s.len() && s[i].address.bytes@ == a ==> model_of(s)[a] == s[i],
    decreases s.len(),
{
    if s.len() > 0 {
        let t = s.drop_last();
        assert(unique_addresses(t));
        lemma_model_lookup(t, a);
        if s.last().address.bytes@ == a {
            assert(s[s.len() - 1].address.bytes@ == a);
        } else {
            if model_of(t).contains_key(a) {
                let i = choose|i: int| 0 <= i < t.len() && t[i].address.bytes@ == a;
                assert(s[i] == t[i]);
            }
            if exists|i: int| 0 <= i < s.len() && s[i].address.bytes@ == a {
                let i = choose|i: int| 0 <= i < s.len() && s[i].address.bytes@ == a;
                assert(t[i] == s[i]);
            }
        }
        assert forall|i: int|
            0 <= i < s.len() && s[i].address.bytes@ == a implies model_of(s)[a] == s[i] by {
            if i < s.len() - 1 {
                assert(s[i] == t[i]);
            }
        }
    }
}

proof fn lemma_model_update(s: Seq<Keyfile>, i: int, k: Keyfile)
    requires
        unique_addresses(s),
        0 <= i < s.len(),
        k.address.bytes@ == s[i].address.bytes@,
    ensures
        unique_addresses(s.update(i, k)),
        model_of(s.update(i, k)) == model_of(s).insert(k.address.bytes@, k),
    decreases s.len(),
{
    let u = s.update(i, k);
    let t = s.drop_last();
    assert(unique_addresses(u)) by {
        assert forall|x: int, y: int|
            0 <= x < u.len() && 0 <= y < u.len() && x != y implies u[x].address.bytes@
            != u[y].address.bytes@ by {
            assert(s[x].address.bytes@ == u[x].address.bytes@);
            assert(s[y].address.bytes@ == u[y].address.bytes@);
        }
    }
    if i == s.len() - 1 {
        assert(u.drop_last() =~= t);
        assert(model_of(u) =~= model_of(s).insert(k.address.bytes@, k));
    } else {
        assert(unique_addresses(t));
        lemma_model_update(t, i, k);
        assert(u.drop_last() =~= t.update(i, k));
        assert(u.last() == s.last());
        assert(s.last().address.bytes@ != k.address.bytes@);
        assert(model_of(u) =~= model_of(s).insert(k.address.bytes@, k));
    }
}

/// Keyfiles indexed by address.
pub struct Vault {
    pub records: Vec<Keyfile>,
}

impl View for Vault {
    type V = Map<Seq<u8>, Keyfile>;

    open spec fn view(&self) -> Map<Seq<u8>, Keyfile> {
        model_of(self.records@)
    }
}

impl Vault {
    pub open spec fn wf(&self) -> bool {
        unique_addresses(self.records@) && forall|i: int|
            0 <= i < self.records@.len() ==> #[trigger] self.records@[i].wf()
    }

    /// A vault with no records.
    pub fn new() -> (r: Vault)
        ensures
            r.wf(),
            r@ == Map::<Seq<u8>, Keyfile>::empty(),
    {
        Vault { records: Vec::new() }
    }

    /// Where the record for an address stands, if there is one.
    fn position(&self, a: &Address) -> (r: Option<usize>)
        requires
            self.wf(),
        ensures
            r is None <==> !self@.contains_key(a.bytes@),
            r matches Some(i) ==> i < self.records@.len() && self.records@[i as int].address.bytes@
                == a.bytes@,
    {
        let mut i: usize = 0;
        while i < self.records.len()
            invariant
                self.wf(),
                0 <= i <= self.records@.len(),
                forall|j: int| 0 <= j < i ==> self.records@[j].address.bytes@ != a.bytes@,
            decreases self.records@.len() - i,
        {
            if same_bytes(self.records[i].address.bytes.as_slice(), a.bytes.as_slice()) {
                proof {
                    lemma_model_lookup(self.records@, a.bytes@);
                }
                return Some(i);
            }
            i = i + 1;
        }
        proof {
            lemma_model_lookup(self.records@, a.bytes@);
        }
        None
    }

    /// The record for an address.
    pub fn get(&self, a: &Address) -> (r: Result<&Keyfile, VaultError>)
        requires
            self.wf(),
        ensures
            r is Ok <==> self@.contains_key(a.bytes@),
            r matches Ok(k) ==> *k == self@[a.bytes@] && k.wf(),
            r matches Err(e) ==> e == VaultError::NotFound,
    {
        match self.position(a) {
            Some(i) => {
                proof {
                    lemma_model_lookup(self.records@, a.bytes@);
                }
                Ok(&self.records[i])
            },
            None => Err(VaultError::NotFound),
        }
    }

    /// Stores a record under its address, replacing whole any record that
    /// was there.
    pub fn put(&mut self, kf: Keyfile)
        requires
            old(self).wf(),
            kf.wf(),
        ensures
            final(self).wf(),
            final(self)@ == old(self)@.insert(kf.address.bytes@, kf),
    {
        match self.position(&kf.address) {
            Some(i) => {
                proof {
                    lemma_model_update(self.records@, i as int, kf);
                }
                self.records.set(i, kf);
            },
            None => {
                proof {
                    lemma_model_lookup(self.records@, kf.address.bytes@);
                    assert(self.records@.push(kf).drop_last() =~= self.records@);
                }
                self.records.push(kf);
            },
        }
    }
}

} // verus!

verus! {

impl Vault {
    /// Every record, in no particular order.
    pub fn list(&self) -> (r: &Vec<Keyfile>)
        requires
            self.wf(),
        ensures
            forall|a: Seq<u8>|
                self@.contains_key(a) <==> exists|i: int|
                    0 <= i < r@.len() && (#[trigger] r@[i]).address.bytes@ == a,
            forall|i: int| 0 <= i < r@.len() ==> self@[(#[trigger] r@[i]).address.bytes@] == r@[i],
            unique_addresses(r@),
    {
        proof {
            assert forall|a: Seq<u8>|
                self@.contains_key(a) <==> exists|i: int|
                    0 <= i < self.records@.len() && (#[trigger] self.records@[i]).address.bytes@
                        == a by {
                lemma_model_lookup(self.records@, a);
            }
            assert forall|i: int| 0 <= i < self.records@.len() implies self@[(
            #[trigger] self.records@[i]).address.bytes@] == self.records@[i] by {
                lemma_model_lookup(self.records@, self.records@[i].address.bytes@);
            }
        }
        &self.records
    }

    /// The public summary of every record, in the order of `list`.
    pub fn list_accounts(&self) -> (r: Vec<AccountData>)
        requires
            self.wf(),
        ensures
            r@.len() == self.records@.len(),
            forall|i: int|
                0 <= i < r@.len() ==> (#[trigger] r@[i]).id@ == uuid_text(
                    self.records@[i].uuid@,
                ) && r@[i].address@ == address_text(self.records@[i].address.bytes@)
                    && r@[i].name == self.records@[i].name && r@[i].description
                    == self.records@[i].description,
    {
        let mut r: Vec<AccountData> = Vec::new();
        let mut i: usize = 0;
        while i < self.records.len()
            invariant
                self.wf(),
                0 <= i <= self.records@.len(),
                r@.len() == i,
                forall|j: int|
                    0 <= j < i ==> (#[trigger] r@[j]).id@ == uuid_text(self.records@[j].uuid@)
                        && r@[j].address@ == address_text(self.records@[j].address.bytes@)
                        && r@[j].name == self.records@[j].name && r@[j].description
                        == self.records@[j].description,
            decreases self.records@.len() - i,
        {
            let d = account_data(&self.records[i]);
            r.push(d);
            i = i + 1;
        }
        r
    }

    /// Stores a keyfile supplied whole by the caller and returns its
    /// identifier as text.
    pub fn import_account(&mut self, kf: Keyfile) -> (id: String)
        requires
            old(self).wf(),
            kf.wf(),
        ensures
            final(self).wf(),
            final(self)@ == old(self)@.insert(kf.address.bytes@, kf),
            id@ == uuid_text(kf.uuid@),
    {
        let id = kf.id_text();
        self.put(kf);
        id
    }

    /// The record for an address given as text.
    pub fn export_account(&self, address: &str) -> (r: Result<&Keyfile, VaultError>)
        requires
            self.wf(),
        ensures
            !is_address_text(address.spec_bytes()) ==> r == Err::<&Keyfile, VaultError>(
                VaultError::InvalidAddress,
            ),
            is_address_text(address.spec_bytes()) && !self@.contains_key(
                address_of_text(address.spec_bytes()),
            ) ==> r == Err::<&Keyfile, VaultError>(VaultError::NotFound),
            r is Ok <==> is_address_text(address.spec_bytes()) && self@.contains_key(
                address_of_text(address.spec_bytes()),
            ),
            r matches Ok(k) ==> *k == self@[address_of_text(address.spec_bytes())],
    {
        let a = parse_address(address)?;
        self.get(&a)
    }

    /// Replaces the name and description of the record for an address given
    /// as text, where the update holds them; everything else is kept.
    pub fn update_account(&mut self, address: &str, u: AccountUpdate) -> (r: Result<
        (),
        VaultError,
    >)
        requires
            old(self).wf(),
        ensures
            final(self).wf(),
            !is_address_text(address.spec_bytes()) ==> r == Err::<(), VaultError>(
                VaultError::InvalidAddress,
            ),
            is_address_text(address.spec_bytes()) && !old(self)@.contains_key(
                address_of_text(address.spec_bytes()),
            ) ==> r == Err::<(), VaultError>(VaultError::NotFound),
            r is Ok <==> is_address_text(address.spec_bytes()) && old(self)@.contains_key(
                address_of_text(address.spec_bytes()),
            ),
            r is Ok ==> final(self)@ == old(self)@.insert(
                address_of_text(address.spec_bytes()),
                patched(old(self)@[address_of_text(address.spec_bytes())], u),
            ),
            r is Err ==> final(self)@ == old(self)@,
    {
        let a = parse_address(address)?;
        match self.position(&a) {
            Some(i) => {
                let ghost before = self.records@;
                proof {
                    lemma_model_lookup(before, a.bytes@);
                }
                let kf = self.records.remove(i);
                let kf = apply_update(kf, u);
                self.records.insert(i, kf);
                proof {
                    assert(self.records@ =~= before.update(i as int, kf));
                    lemma_model_update(before, i as int, kf);
                    assert(before[i as int].wf());
                    assert forall|j: int| 0 <= j < self.records@.len() implies #[trigger] self.records@[j].wf() by {
                        if j != i {
                            assert(self.records@[j] == before[j]);
                        }
                    }
                }
                Ok(())
            },
            None => Err(VaultError::NotFound),
        }
    }
}

/// Storing a record and then looking up its address yields that record; a
/// later store under the same address replaces it whole, and the
/// fetch-patch-store flow of an update keeps what the update leaves out.
pub proof fn lemma_upsert(m: Map<Seq<u8>, Keyfile>, kf: Keyfile, kf2: Keyfile, u: AccountUpdate)
    requires
        kf2.address.bytes@ == kf.address.bytes@,
    ensures
        m.insert(kf.address.bytes@, kf).contains_key(kf.address.bytes@),
        m.insert(kf.address.bytes@, kf)[kf.address.bytes@] == kf,
        m.insert(kf.address.bytes@, kf).insert(kf2.address.bytes@, kf2) == m.insert(
            kf2.address.bytes@,
            kf2,
        ),
        ({
            let n = m.insert(kf.address.bytes@, kf);
            let p = n.insert(kf.address.bytes@, patched(n[kf.address.bytes@], u));
            p[kf.address.bytes@].uuid == kf.uuid && p[kf.address.bytes@].crypto == kf.crypto
                && p[kf.address.bytes@].name == (if u.name is Some {
                u.name
            } else {
                kf.name
            })
        }),
{
    assert(m.insert(kf.address.bytes@, kf).insert(kf2.address.bytes@, kf2) =~= m.insert(
        kf2.address.bytes@,
        kf2,
    ));
}

} // verus!
