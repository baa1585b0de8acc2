//! Who may trigger an epoch: the administrator or an allow-listed oracle.
use vstd::prelude::*;

use crate::identity::Identity;

verus! {

/// Capacity of the oracle allowlist.
pub const MAX_ORACLES: usize = 16;

/// A bounded allowlist of oracle identities; the first `count` keys are in it.
#[derive(Clone, Copy, Debug)]
pub struct OracleList {
    pub enabled: bool,
    pub count: u8,
    pub keys: [Identity; 16],
    pub bump: u8,
}

/// The keys that are on the list: the first `count`, at most the capacity.
pub open spec fn listed(list: OracleList) -> Seq<Identity> {
    let n = if list.count <= MAX_ORACLES { list.count as int } else { MAX_ORACLES as int };
    list.keys@.subrange(0, n)
}

/// `signer` holds the same bytes as one of the listed keys.
pub open spec fn on_list(list: OracleList, signer: Identity) -> bool {
    exists|i: int| 0 <= i < listed(list).len() && (#[trigger] listed(list)[i]).bytes@ == signer.bytes@
}

/// The list is enabled and `signer` is the administrator or on the list.
pub open spec fn authorized(list: OracleList, admin: Identity, signer: Identity) -> bool {
    list.enabled && (signer.bytes@ == admin.bytes@ || on_list(list, signer))
}

/// Whether `signer` is one of the listed oracles.
pub fn oracle_is_allowed(list: &OracleList, signer: Identity) -> (r: bool)
    ensures
        r == on_list(*list, signer),
{
    let n: usize = if (list.count as usize) <= MAX_ORACLES { list.count as usize } else { MAX_ORACLES };
    let mut i: usize = 0;
    while i < n
        invariant
            n == listed(*list).len(),
            n <= MAX_ORACLES,
            0 <= i <= n,
            forall|j: int| 0 <= j < i ==> (#[trigger] listed(*list)[j]).bytes@ != signer.bytes@,
        decreases n - i,
    {
        assert(listed(*list)[i as int] == list.keys@[i as int]);
        if list.keys[i].same_as(&signer) {
            return true;
        }
        i = i + 1;
    }
    false
}

/// Whether `signer` may trigger an epoch: the list must be enabled, and the
/// signer must be the administrator or a listed oracle.
pub fn is_authorized(list: &OracleList, admin: &Identity, signer: &Identity) -> (r: bool)
    ensures
        r == authorized(*list, *admin, *signer),
{
    if !list.enabled {
        return false;
    }
    signer.same_as(admin) || oracle_is_allowed(list, *signer)
}

} // verus!
