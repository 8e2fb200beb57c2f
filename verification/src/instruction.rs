use vstd::prelude::*;

verus! {

/// A reference to an account named by an instruction: its 32-byte address,
/// whether the transaction must carry its signature, and whether the
/// instruction may write to it.
#[derive(Clone, Copy, Debug)]
pub struct AccountRef {
    pub key: [u8; 32],
    pub is_signer: bool,
    pub is_writable: bool,
}

/// One instruction: the program it targets, its serialized data, and the
/// ordered account references it touches. Immutable once built.
#[derive(Debug)]
pub struct Instruction {
    pub program_id: [u8; 32],
    pub data: Vec<u8>,
    pub accounts: Vec<AccountRef>,
}

/// The byte-sequence views of a sequence of 32-byte keys.
pub open spec fn key_views(keys: Seq<[u8; 32]>) -> Seq<Seq<u8>> {
    keys.map_values(|k: [u8; 32]| k@)
}

/// Whether `keys` holds `k`.
pub open spec fn spec_keys_contain(keys: Seq<Seq<u8>>, k: Seq<u8>) -> bool {
    exists|i: int| 0 <= i < keys.len() && keys[i] == k
}

/// Whether `provided` holds the payer's key and the key of every account
/// marked as a required signer. A transaction can be fully signed exactly
/// when this holds of the keys behind the supplied key pairs.
pub open spec fn signers_cover(
    provided: Seq<Seq<u8>>,
    payer: Seq<u8>,
    accounts: Seq<AccountRef>,
) -> bool {
    &&& spec_keys_contain(provided, payer)
    &&& forall|i: int|
        0 <= i < accounts.len() && (#[trigger] accounts[i]).is_signer ==> spec_keys_contain(
            provided,
            accounts[i].key@,
        )
}

/// Byte-for-byte equality of two account keys.
pub fn key_eq(a: &[u8; 32], b: &[u8; 32]) -> (r: bool)
    ensures
        r == (a@ == b@),
{
    let mut i: usize = 0;
    while i < 32
        invariant
            0 <= i <= 32,
            forall|j: int| 0 <= j < i ==> a@[j] == b@[j],
        decreases 32 - i,
    {
        if a[i] != b[i] {
            return false;
        }
        i += 1;
    }
    assert(a@ =~= b@);
    true
}

/// Whether `keys` holds `k`, by linear scan.
pub fn keys_contain(keys: &Vec<[u8; 32]>, k: &[u8; 32]) -> (r: bool)
    ensures
        r == spec_keys_contain(key_views(keys@), k@),
{
    let mut i: usize = 0;
    while i < keys.len()
        invariant
            0 <= i <= keys@.len(),
            forall|j: int| 0 <= j < i ==> key_views(keys@)[j] != k@,
        decreases keys@.len() - i,
    {
        if key_eq(&keys[i], k) {
            assert(key_views(keys@)[i as int] == k@);
            return true;
        }
        i += 1;
    }
    false
}

/// Decide whether the provided signer keys cover the payer and every account
/// marked as a required signer.
pub fn check_signers(provided: &Vec<[u8; 32]>, payer: &[u8; 32], accounts: &Vec<AccountRef>) -> (r:
    bool)
    ensures
        r == signers_cover(key_views(provided@), payer@, accounts@),
{
    if !keys_contain(provided, payer) {
        return false;
    }
    let mut i: usize = 0;
    while i < accounts.len()
        invariant
            0 <= i <= accounts@.len(),
            spec_keys_contain(key_views(provided@), payer@),
            forall|j: int|
                0 <= j < i && (#[trigger] accounts@[j]).is_signer ==> spec_keys_contain(
                    key_views(provided@),
                    accounts@[j].key@,
                ),
        decreases accounts@.len() - i,
    {
        if accounts[i].is_signer && !keys_contain(provided, &accounts[i].key) {
            return false;
        }
        i += 1;
    }
    true
}

/// Copy a list of account references.
pub fn copy_accounts(accounts: &Vec<AccountRef>) -> (r: Vec<AccountRef>)
    ensures
        r@ == accounts@,
{
    let mut r: Vec<AccountRef> = Vec::new();
    let mut i: usize = 0;
    while i < accounts.len()
        invariant
            0 <= i <= accounts@.len(),
            r@ =~= accounts@.take(i as int),
        decreases accounts@.len() - i,
    {
        r.push(accounts[i]);
        i += 1;
    }
    assert(r@ =~= accounts@);
    r
}

} // verus!
