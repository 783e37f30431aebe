//! Access to the history: what a credential may do, which credentials were
//! revoked, and the account on whose behalf a query reads.

use vstd::prelude::*;
use crate::model::{ContractError, HistoryRecord};
use crate::ledger::{HistoryLedger, page_of};

verus! {

/// What a credential may grant.
#[derive(Debug, Clone, Copy, PartialEq, Eq, Structural)]
pub enum Capability {
    Allowance,
    Balance,
    History,
    /// Everything that the signer of the credential may do.
    Owner,
}

/// The part of a signed credential that the program reads once the signature
/// has been checked.
#[derive(Debug, Clone, PartialEq, Eq)]
pub struct Credential {
    /// The name under which the signer can revoke the credential.
    pub name: String,
    /// The capabilities that the credential grants.
    pub capabilities: Vec<Capability>,
}

impl Credential {
    /// Whether the credential grants `capability`.
    pub fn check_permission(&self, capability: Capability) -> (r: bool)
        ensures
            r == self.capabilities@.contains(capability),
    {
        let mut i: usize = 0;
        while i < self.capabilities.len()
            invariant
                i <= self.capabilities@.len(),
                forall|j: int| 0 <= j < i ==> self.capabilities@[j] != capability,
            decreases self.capabilities.len() - i,
        {
            if self.capabilities[i] == capability {
                return true;
            }
            i += 1;
        }
        false
    }
}

/// The key of an entry: account and credential name.
pub open spec fn entry_key(entry: (String, String)) -> (Seq<char>, Seq<char>) {
    (entry.0@, entry.1@)
}

/// The credentials that accounts have revoked. Entries are added and never
/// removed.
#[derive(Debug, Clone, PartialEq, Eq)]
pub struct RevocationList {
    pub entries: Vec<(String, String)>,
}

impl RevocationList {
    /// The set of revoked (account, credential name) pairs.
    pub open spec fn view(&self) -> Set<(Seq<char>, Seq<char>)> {
        Set::new(
            |key: (Seq<char>, Seq<char>)|
                exists|i: int|
                    0 <= i < self.entries@.len() && entry_key(#[trigger] self.entries@[i]) == key,
        )
    }

    /// A list without entries.
    pub fn new() -> (r: RevocationList)
        ensures
            r@ == Set::<(Seq<char>, Seq<char>)>::empty(),
    {
        let r = RevocationList { entries: Vec::new() };
        assert(r@ =~= Set::<(Seq<char>, Seq<char>)>::empty());
        r
    }

    /// Whether `account` has revoked the credential `name`.
    pub fn is_revoked(&self, account: &String, name: &String) -> (r: bool)
        ensures
            r == self@.contains((account@, name@)),
    {
        let mut i: usize = 0;
        while i < self.entries.len()
            invariant
                i <= self.entries@.len(),
                forall|j: int|
                    0 <= j < i ==> entry_key(#[trigger] self.entries@[j]) != (account@, name@),
            decreases self.entries.len() - i,
        {
            if self.entries[i].0 == *account && self.entries[i].1 == *name {
                assert(entry_key(self.entries@[i as int]) == (account@, name@));
                return true;
            }
            i += 1;
        }
        false
    }
}

/// Revokes the credential `permit_name` of the account `sender`.
///
/// Afterwards the pair is in the set, and nothing else has changed. Where it
/// was there before, the list is as it was: revoking again is no error and
/// changes nothing.
pub fn try_revoke_permit(list: &mut RevocationList, sender: &String, permit_name: &String)
    ensures
        final(list)@ == old(list)@.insert((sender@, permit_name@)),
        old(list)@.contains((sender@, permit_name@)) ==> *final(list) == *old(list),
{
    if list.is_revoked(sender, permit_name) {
        assert(list@ =~= old(list)@.insert((sender@, permit_name@)));
        return ;
    }
    let ghost n = list.entries@.len() as int;
    list.entries.push((sender.clone(), permit_name.clone()));
    proof {
        assert(entry_key(list.entries@[n]) == (sender@, permit_name@));
        assert forall|key: (Seq<char>, Seq<char>)| list@.contains(key) == old(list)@.insert(
            (sender@, permit_name@),
        ).contains(key) by {
            if old(list)@.contains(key) {
                let i = choose|i: int|
                    0 <= i < old(list).entries@.len() && entry_key(
                        #[trigger] old(list).entries@[i],
                    ) == key;
                assert(entry_key(list.entries@[i]) == key);
            }
            if list@.contains(key) && key != (sender@, permit_name@) {
                let i = choose|i: int|
                    0 <= i < list.entries@.len() && entry_key(#[trigger] list.entries@[i]) == key;
                assert(i < n);
                assert(entry_key(old(list).entries@[i]) == key);
            }
        }
        assert(list@ =~= old(list)@.insert((sender@, permit_name@)));
    }
}

/// Revoking a credential a second time leaves the set of revoked credentials
/// as the first revocation left it.
pub proof fn lemma_revoke_idempotent(revoked: Set<(Seq<char>, Seq<char>)>, key: (Seq<char>, Seq<char>))
    ensures
        revoked.insert(key).insert(key) == revoked.insert(key),
{
    assert(revoked.insert(key).insert(key) =~= revoked.insert(key));
}

/// Whether `e` is the refusal owed to a query that presents `credential`,
/// for which the credential verifier found `signer`.
///
/// It is `CredentialInvalid` where the verifier rejected the credential or
/// the signer has revoked it, and `InsufficientScope` where the credential
/// stands but does not grant `Owner`; a credential that stands and grants
/// `Owner` is owed no refusal.
pub open spec fn is_refusal(
    revoked: Set<(Seq<char>, Seq<char>)>,
    signer: Option<String>,
    credential: Credential,
    e: ContractError,
) -> bool {
    match signer {
        None => e == ContractError::CredentialInvalid,
        Some(account) => if revoked.contains((account@, credential.name@)) {
            e == ContractError::CredentialInvalid
        } else {
            e == ContractError::InsufficientScope && !credential.capabilities@.contains(
                Capability::Owner,
            )
        },
    }
}

/// Whether a query that presents `credential`, for which the credential
/// verifier found `signer`, may read the history of `account`: the verifier
/// found that `account` signed, the account has not revoked the credential,
/// and the credential grants `Owner`.
pub open spec fn may_read(
    revoked: Set<(Seq<char>, Seq<char>)>,
    signer: Option<String>,
    credential: Credential,
    account: String,
) -> bool {
    &&& signer == Some(account)
    &&& !revoked.contains((account@, credential.name@))
    &&& credential.capabilities@.contains(Capability::Owner)
}

/// Decides on whose behalf a history query reads.
///
/// `signer` is what the credential verifier found: the account that signed
/// `credential`, or `None` where it rejected the credential. The result is
/// the signer exactly where `may_read` holds of it, and otherwise the refusal
/// of `is_refusal`.
pub fn get_querier(revoked: &RevocationList, signer: Option<String>, credential: &Credential) -> (r:
    Result<String, ContractError>)
    ensures
        match r {
            Ok(account) => may_read(revoked@, signer, *credential, account),
            Err(e) => is_refusal(revoked@, signer, *credential, e),
        },
{
    match signer {
        None => Err(ContractError::CredentialInvalid),
        Some(account) => {
            if revoked.is_revoked(&account, &credential.name) {
                Err(ContractError::CredentialInvalid)
            } else if !credential.check_permission(Capability::Owner) {
                Err(ContractError::InsufficientScope)
            } else {
                Ok(account)
            }
        },
    }
}

/// The number of history records of the account that signed `credential`.
///
/// Refused as `get_querier` refuses; no count is handed out then.
pub fn query_num_user_burn_history(
    ledger: &HistoryLedger,
    revoked: &RevocationList,
    signer: Option<String>,
    credential: &Credential,
) -> (r: Result<usize, ContractError>)
    requires
        ledger.wf(),
    ensures
        match r {
            Ok(n) => {
                &&& signer is Some
                &&& may_read(revoked@, signer, *credential, signer->0)
                &&& n == ledger.history(signer->0@).len()
            },
            Err(e) => is_refusal(revoked@, signer, *credential, e),
        },
{
    match get_querier(revoked, signer, credential) {
        Err(e) => Err(e),
        Ok(account) => Ok(ledger.len(&account)),
    }
}

/// Page `start_page` of the history of the account that signed `credential`,
/// for pages of `page_size` records.
///
/// Refused as `get_querier` refuses; no record is handed out then.
pub fn query_user_burn_history<'a>(
    ledger: &'a HistoryLedger,
    revoked: &RevocationList,
    signer: Option<String>,
    credential: &Credential,
    start_page: u32,
    page_size: u32,
) -> (r: Result<Vec<&'a HistoryRecord>, ContractError>)
    requires
        ledger.wf(),
    ensures
        match r {
            Ok(records) => {
                let want = page_of(
                    ledger.history(signer->0@),
                    start_page as nat,
                    page_size as nat,
                );
                &&& signer is Some
                &&& may_read(revoked@, signer, *credential, signer->0)
                &&& records@.len() == want.len()
                &&& forall|k: int| 0 <= k < records@.len() ==> *(#[trigger] records@[k]) == want[k]
            },
            Err(e) => is_refusal(revoked@, signer, *credential, e),
        },
{
    match get_querier(revoked, signer, credential) {
        Err(e) => Err(e),
        Ok(account) => Ok(ledger.page(&account, start_page, page_size)),
    }
}

} // verus!
