//! Accounts and origins of the test network, and the sovereign accounts that
//! sibling parachains hold on each other.

use vstd::prelude::*;
use sp_runtime::traits::AccountIdConversion;

verus! {

/// A 32-byte account identifier.
pub type AccountId = [u8; 32];

/// Para id of the first parachain of the test network.
pub const PARA_A_ID: u32 = 2000;

/// Para id of the second parachain of the test network.
pub const PARA_B_ID: u32 = 2001;

/// Account of `n` repeated in all 32 bytes.
pub open spec fn uniform_account(n: u8) -> Seq<u8> {
    Seq::new(32, |_i: int| n)
}

/// The account that creates collections and mints NFTs in the scenarios:
/// all bytes zero.
pub fn alice() -> (a: AccountId)
    ensures
        a@ == uniform_account(0),
{
    let a: AccountId = [0u8; 32];
    assert(a@ =~= uniform_account(0));
    a
}

/// A second user account: all bytes one.
pub fn bob() -> (a: AccountId)
    ensures
        a@ == uniform_account(1),
{
    let a: AccountId = [1u8; 32];
    assert(a@ =~= uniform_account(1));
    a
}

/// A third user account; it holds the same bytes as `bob`.
pub fn charlie() -> (a: AccountId)
    ensures
        a@ == uniform_account(1),
{
    bob()
}

/// A fourth user account; it holds the same bytes as `bob`.
pub fn dave() -> (a: AccountId)
    ensures
        a@ == uniform_account(1),
{
    bob()
}

/// Balance that `alice` holds on the relay chain at genesis.
pub const INITIAL_BALANCE: u64 = 1_000_000_000;

/// The four little-endian bytes of `x`.
pub open spec fn le_u32_bytes(x: u32) -> Seq<u8> {
    seq![
        (x & 0xff) as u8,
        ((x >> 8u32) & 0xff) as u8,
        ((x >> 16u32) & 0xff) as u8,
        ((x >> 24u32) & 0xff) as u8,
    ]
}

/// The type tag that prefixes sibling sovereign accounts: the bytes of "sibl".
pub open spec fn sibling_type_id() -> Seq<u8> {
    seq![115u8, 105u8, 98u8, 108u8]
}

/// The type tag that prefixes the relay chain's accounts of its child
/// parachains: the bytes of "para".
pub open spec fn para_type_id() -> Seq<u8> {
    seq![112u8, 97u8, 114u8, 97u8]
}

/// The account that the relay chain keeps for child parachain `para_id`: the
/// type tag, the little-endian para id, then zero bytes up to 32 bytes.
pub open spec fn para_account_bytes(para_id: u32) -> Seq<u8> {
    para_type_id() + le_u32_bytes(para_id) + Seq::new(24, |_i: int| 0u8)
}

/// The sovereign account of sibling parachain `para_id`: the type tag, the
/// little-endian para id, then zero bytes up to 32 bytes.
pub open spec fn sibling_account_bytes(para_id: u32) -> Seq<u8> {
    sibling_type_id() + le_u32_bytes(para_id) + Seq::new(24, |_i: int| 0u8)
}

/// `Sibling::from(para_id).into_account_truncating()` of the parachain
/// primitives, as the bytes of an `AccountId32`.  Its source encodes the type
/// tag `b"sibl"` followed by the para id as a little-endian `u32` and fills the
/// rest of the 32 bytes with zeros; the contract states exactly that.
#[verifier::external_body]
fn sibling_into_account_truncating(para_id: u32) -> (account: AccountId)
    ensures
        account@ == sibling_account_bytes(para_id),
{
    let sibling = polkadot_parachain_primitives::primitives::Sibling::from(para_id);
    let account: sp_runtime::AccountId32 = sibling.into_account_truncating();
    account.into()
}

/// `Id::from(para_id).into_account_truncating()` of the parachain primitives,
/// as the bytes of an `AccountId32`.  Its source encodes the type tag
/// `b"para"` followed by the para id as a little-endian `u32` and fills the
/// rest of the 32 bytes with zeros; the contract states exactly that.
#[verifier::external_body]
fn para_into_account_truncating(para_id: u32) -> (account: AccountId)
    ensures
        account@ == para_account_bytes(para_id),
{
    let id = polkadot_parachain_primitives::primitives::Id::from(para_id);
    let account: sp_runtime::AccountId32 = id.into_account_truncating();
    account.into()
}

/// The account that the relay chain keeps for child parachain `para_id`.
pub fn para_account(para_id: u32) -> (account: AccountId)
    ensures
        account@ == para_account_bytes(para_id),
{
    para_into_account_truncating(para_id)
}

/// The sovereign account that sibling parachain `para_id` holds.
pub fn sibling_account(para_id: u32) -> (account: AccountId)
    ensures
        account@ == sibling_account_bytes(para_id),
{
    sibling_into_account_truncating(para_id)
}

/// The sovereign account of the first parachain as a sibling.
pub fn sibling_a_account() -> (account: AccountId)
    ensures
        account@ == sibling_account_bytes(PARA_A_ID),
{
    sibling_account(PARA_A_ID)
}

/// The sovereign account of the second parachain as a sibling.
pub fn sibling_b_account() -> (account: AccountId)
    ensures
        account@ == sibling_account_bytes(PARA_B_ID),
{
    sibling_account(PARA_B_ID)
}

/// Sibling sovereign accounts of different parachains differ.
pub proof fn lemma_sibling_account_injective(a: u32, b: u32)
    requires
        a != b,
    ensures
        sibling_account_bytes(a) != sibling_account_bytes(b),
{
    let sa = sibling_account_bytes(a);
    let sb = sibling_account_bytes(b);
    if sa == sb {
        assert(sa[4] == sb[4] && sa[5] == sb[5] && sa[6] == sb[6] && sa[7] == sb[7]);
        assert(sa[4] == (a & 0xff) as u8);
        assert(sa[5] == ((a >> 8u32) & 0xff) as u8);
        assert(sa[6] == ((a >> 16u32) & 0xff) as u8);
        assert(sa[7] == ((a >> 24u32) & 0xff) as u8);
        assert(sb[4] == (b & 0xff) as u8);
        assert(sb[5] == ((b >> 8u32) & 0xff) as u8);
        assert(sb[6] == ((b >> 16u32) & 0xff) as u8);
        assert(sb[7] == ((b >> 24u32) & 0xff) as u8);
        assert(a == b) by (bit_vector)
            requires
                (a & 0xff) as u8 == (b & 0xff) as u8,
                ((a >> 8u32) & 0xff) as u8 == ((b >> 8u32) & 0xff) as u8,
                ((a >> 16u32) & 0xff) as u8 == ((b >> 16u32) & 0xff) as u8,
                ((a >> 24u32) & 0xff) as u8 == ((b >> 24u32) & 0xff) as u8,
        ;
    }
}

/// A parachain's account on the relay chain differs from its sovereign
/// account on a sibling, and from every other sibling's.
pub proof fn lemma_para_and_sibling_accounts_differ(a: u32, b: u32)
    ensures
        para_account_bytes(a) != sibling_account_bytes(b),
{
    assert(para_account_bytes(a)[0] == 112u8);
    assert(sibling_account_bytes(b)[0] == 115u8);
}

/// Every sibling sovereign account is 32 bytes long, starts with the sibling
/// type tag and ends in 24 zero bytes.
pub proof fn lemma_sibling_account_shape(para_id: u32)
    ensures
        sibling_account_bytes(para_id).len() == 32,
        sibling_account_bytes(para_id).subrange(0, 4) == sibling_type_id(),
        forall|i: int| 8 <= i < 32 ==> #[trigger] sibling_account_bytes(para_id)[i] == 0u8,
{
    assert(sibling_account_bytes(para_id).subrange(0, 4) =~= sibling_type_id());
}

/// The origin of a dispatched call.
#[derive(Clone, Copy, Debug)]
pub enum Origin {
    /// The root origin.
    Root,
    /// A call signed by an account.
    Signed(AccountId),
}

/// The root origin.
pub fn root_user() -> (o: Origin)
    ensures
        o == Origin::Root,
{
    Origin::Root
}

/// The origin of a call signed by `account`.
pub fn who(account: AccountId) -> (o: Origin)
    ensures
        o == Origin::Signed(account),
{
    Origin::Signed(account)
}

} // verus!
