//! Trust-chain resolver.
//!
//! `resolve_trust_chain` expands a set of trusted anchor certificates by a
//! fixed-point closure over an untrusted candidate chain: a candidate is
//! promoted when some already-trusted certificate's subject name equals the
//! candidate's issuer name, the candidate's signature verifies under that
//! certificate's key, and the candidate carries the CA basic-constraint.
//! The resolver never fails; an unchanged result is a valid outcome.

use vstd::prelude::*;

use crate::cert::{CertData, CertModel, check_signature, bytes_eq, sig_verifies};

verus! {

/// One link of a trust chain: the trusted certificate `t` signs the
/// candidate `c` and their names line up.
pub open spec fn cert_link(t: CertModel, c: CertModel) -> bool {
    t.subject == c.issuer && sig_verifies(c.der, t.der)
}

/// Some certificate of `trusted` links to `c`.
pub open spec fn link_exists(trusted: Seq<CertModel>, c: CertModel) -> bool {
    exists|i: int| 0 <= i < trusted.len() && cert_link(#[trigger] trusted[i], c)
}

/// `c` could be promoted from the pool given the `trusted` set.
pub open spec fn promotable(trusted: Seq<CertModel>, c: CertModel) -> bool {
    c.is_ca && link_exists(trusted, c)
}

/// `c` is trusted within `n` promotion steps: either it is an anchor, or it
/// is a CA certificate of the pool signed by a certificate trusted within
/// `n - 1` steps.
pub open spec fn trusted_at(pool: Seq<CertModel>, anchors: Seq<CertModel>, c: CertModel, n: nat) -> bool
    decreases n,
{
    anchors.contains(c) || (n > 0 && pool.contains(c) && c.is_ca && exists|t: CertModel|
        trusted_at(pool, anchors, t, (n - 1) as nat) && #[trigger] cert_link(t, c))
}

/// `c` is reachable from the anchors through some chain of valid CA links.
/// This is the mathematical meaning of resolution: it mentions only
/// membership in `pool` and `anchors`, never their order.
pub open spec fn chain_trusted(pool: Seq<CertModel>, anchors: Seq<CertModel>, c: CertModel) -> bool {
    exists|n: nat| #[trigger] trusted_at(pool, anchors, c, n)
}

/// The models of a sequence of certificates.
pub open spec fn certs_view(s: Seq<CertData>) -> Seq<CertModel> {
    s.map_values(|c: CertData| c@)
}

/// Whether some certificate of `trusted` links to `c`, decided by scanning.
fn has_link(trusted: &Vec<CertData>, c: &CertData) -> (r: bool)
    ensures
        r == link_exists(certs_view(trusted@), c@),
{
    let n = trusted.len();
    let mut i: usize = 0;
    while i < n
        invariant
            n == trusted@.len(),
            0 <= i <= n,
            forall|k: int| 0 <= k < i ==> !cert_link(certs_view(trusted@)[k], c@),
        decreases n - i,
    {
        let name_match = bytes_eq(&trusted[i].subject_dn, &c.issuer_dn);
        if name_match && check_signature(c, &trusted[i]) {
            assert(cert_link(certs_view(trusted@)[i as int], c@));
            return true;
        }
        proof {
            assert(!cert_link(certs_view(trusted@)[i as int], c@));
        }
        i += 1;
    }
    false
}

/// Membership of an element's model in the viewed sequence, by index.
proof fn lemma_view_contains(s: Seq<CertData>, i: int)
    requires
        0 <= i < s.len(),
    ensures
        certs_view(s).contains(s[i]@),
{
    assert(certs_view(s)[i] == s[i]@);
}

/// Anchors are trusted at once.
proof fn lemma_anchor_trusted(pool: Seq<CertModel>, anchors: Seq<CertModel>, c: CertModel)
    requires
        anchors.contains(c),
    ensures
        chain_trusted(pool, anchors, c),
{
    assert(trusted_at(pool, anchors, c, 0));
}

/// A promotable pool certificate whose signer is trusted is trusted.
proof fn lemma_step_trusted(pool: Seq<CertModel>, anchors: Seq<CertModel>, t: CertModel, c: CertModel)
    requires
        chain_trusted(pool, anchors, t),
        pool.contains(c),
        c.is_ca,
        cert_link(t, c),
    ensures
        chain_trusted(pool, anchors, c),
{
    let n = choose|n: nat| trusted_at(pool, anchors, t, n);
    let next: nat = n + 1;
    assert((next - 1) as nat == n);
    assert(trusted_at(pool, anchors, t, (next - 1) as nat));
    assert(trusted_at(pool, anchors, t, (next - 1) as nat) && cert_link(t, c));
    assert(trusted_at(pool, anchors, c, next));
}

/// At a fixed point (no pool certificate is promotable and the anchors and
/// the rest of the chain are covered), everything chain-trusted is already
/// in the trusted set.
proof fn lemma_fixpoint_complete(
    chain: Seq<CertModel>,
    anchors: Seq<CertModel>,
    trusted: Seq<CertModel>,
    pool: Seq<CertModel>,
    n: nat,
)
    requires
        forall|m: CertModel| anchors.contains(m) ==> trusted.contains(m),
        forall|m: CertModel| chain.contains(m) ==> pool.contains(m) || trusted.contains(m),
        forall|k: int| 0 <= k < pool.len() ==> !promotable(trusted, #[trigger] pool[k]),
    ensures
        forall|m: CertModel| #[trigger] trusted_at(chain, anchors, m, n) ==> trusted.contains(m),
    decreases n,
{
    if n > 0 {
        lemma_fixpoint_complete(chain, anchors, trusted, pool, (n - 1) as nat);
        assert forall|m: CertModel| #[trigger] trusted_at(chain, anchors, m, n) implies trusted.contains(m) by {
            if !anchors.contains(m) {
                let t = choose|t: CertModel|
                    trusted_at(chain, anchors, t, (n - 1) as nat) && #[trigger] cert_link(t, m);
                assert(trusted.contains(t));
                let i = choose|i: int| 0 <= i < trusted.len() && trusted[i] == t;
                assert(cert_link(trusted[i], m));
                assert(link_exists(trusted, m));
                assert(chain.contains(m));
                if pool.contains(m) {
                    let k = choose|k: int| 0 <= k < pool.len() && pool[k] == m;
                    assert(!promotable(trusted, pool[k]));
                    assert(false);
                } else {
                    assert(trusted.contains(m));
                }
            }
        }
    }
}

/// Law: resolution only ever grows the trusted set — every anchor is
/// chain-trusted, so the resolved set is a superset of the anchors.
pub proof fn lemma_resolution_superset(pool: Seq<CertModel>, anchors: Seq<CertModel>)
    ensures
        forall|m: CertModel| anchors.contains(m) ==> chain_trusted(pool, anchors, m),
{
    assert forall|m: CertModel| anchors.contains(m) implies chain_trusted(pool, anchors, m) by {
        lemma_anchor_trusted(pool, anchors, m);
    }
}

/// Whatever is trusted starting from the already-expanded set was already
/// trusted starting from the original anchors.
proof fn lemma_idempotent_step(
    pool: Seq<CertModel>,
    anchors: Seq<CertModel>,
    expanded: Seq<CertModel>,
    m: CertModel,
    n: nat,
)
    requires
        forall|x: CertModel| expanded.contains(x) <==> chain_trusted(pool, anchors, x),
        trusted_at(pool, expanded, m, n),
    ensures
        chain_trusted(pool, anchors, m),
    decreases n,
{
    if expanded.contains(m) {
        assert(chain_trusted(pool, anchors, m));
    } else {
        let t = choose|t: CertModel|
            trusted_at(pool, expanded, t, (n - 1) as nat) && #[trigger] cert_link(t, m);
        lemma_idempotent_step(pool, anchors, expanded, t, (n - 1) as nat);
        lemma_step_trusted(pool, anchors, t, m);
    }
}

/// Law: resolution is idempotent.  Resolving a chain against an already
/// resolved trusted set yields that same set: membership in the closure of
/// the closure coincides with membership in the closure.
pub proof fn lemma_resolution_idempotent(
    pool: Seq<CertModel>,
    anchors: Seq<CertModel>,
    expanded: Seq<CertModel>,
)
    requires
        forall|x: CertModel| expanded.contains(x) <==> chain_trusted(pool, anchors, x),
    ensures
        forall|m: CertModel| chain_trusted(pool, expanded, m) <==> chain_trusted(pool, anchors, m),
{
    assert forall|m: CertModel| chain_trusted(pool, expanded, m) implies
        chain_trusted(pool, anchors, m) by {
        let n = choose|n: nat| trusted_at(pool, expanded, m, n);
        lemma_idempotent_step(pool, anchors, expanded, m, n);
    }
    assert forall|m: CertModel| chain_trusted(pool, anchors, m) implies
        chain_trusted(pool, expanded, m) by {
        assert(expanded.contains(m));
        lemma_anchor_trusted(pool, expanded, m);
    }
}

/// Law: a candidate whose issuer name matches no certificate that ever
/// enters the accruing trusted set is never promoted, at any depth.
pub proof fn lemma_unmatched_issuer_never_trusted(
    pool: Seq<CertModel>,
    anchors: Seq<CertModel>,
    c: CertModel,
)
    requires
        !anchors.contains(c),
        forall|t: CertModel| chain_trusted(pool, anchors, t) ==> t.subject != c.issuer,
    ensures
        !chain_trusted(pool, anchors, c),
{
    if chain_trusted(pool, anchors, c) {
        let n = choose|n: nat| trusted_at(pool, anchors, c, n);
        let t = choose|t: CertModel|
            trusted_at(pool, anchors, t, (n - 1) as nat) && #[trigger] cert_link(t, c);
        assert(chain_trusted(pool, anchors, t));
        assert(t.subject != c.issuer);
        assert(false);
    }
}

/// Trust at a given depth depends only on which certificates the pool and
/// the anchors hold, never on their order or multiplicity.
proof fn lemma_same_members_step(
    pool1: Seq<CertModel>,
    anchors1: Seq<CertModel>,
    pool2: Seq<CertModel>,
    anchors2: Seq<CertModel>,
    m: CertModel,
    n: nat,
)
    requires
        forall|x: CertModel| pool1.contains(x) <==> pool2.contains(x),
        forall|x: CertModel| anchors1.contains(x) <==> anchors2.contains(x),
        trusted_at(pool1, anchors1, m, n),
    ensures
        trusted_at(pool2, anchors2, m, n),
    decreases n,
{
    if !anchors1.contains(m) {
        let t = choose|t: CertModel|
            trusted_at(pool1, anchors1, t, (n - 1) as nat) && #[trigger] cert_link(t, m);
        lemma_same_members_step(pool1, anchors1, pool2, anchors2, t, (n - 1) as nat);
        assert(trusted_at(pool2, anchors2, t, (n - 1) as nat) && cert_link(t, m));
    }
}

/// Law: resolution is order-independent.  Permuting the candidate chain or
/// the anchors — any reordering that keeps the same members — leaves the
/// resolved trusted set unchanged.
pub proof fn lemma_resolution_order_independent(
    pool1: Seq<CertModel>,
    anchors1: Seq<CertModel>,
    pool2: Seq<CertModel>,
    anchors2: Seq<CertModel>,
)
    requires
        forall|x: CertModel| pool1.contains(x) <==> pool2.contains(x),
        forall|x: CertModel| anchors1.contains(x) <==> anchors2.contains(x),
    ensures
        forall|m: CertModel| chain_trusted(pool1, anchors1, m) <==> chain_trusted(pool2, anchors2, m),
{
    assert forall|m: CertModel| chain_trusted(pool1, anchors1, m) implies
        chain_trusted(pool2, anchors2, m) by {
        let n = choose|n: nat| trusted_at(pool1, anchors1, m, n);
        lemma_same_members_step(pool1, anchors1, pool2, anchors2, m, n);
    }
    assert forall|m: CertModel| chain_trusted(pool2, anchors2, m) implies
        chain_trusted(pool1, anchors1, m) by {
        let n = choose|n: nat| trusted_at(pool2, anchors2, m, n);
        lemma_same_members_step(pool2, anchors2, pool1, anchors1, m, n);
    }
}

/// Expand `anchors` by every certificate of `chain` that is reachable from
/// them through valid CA links.
///
/// The result starts with the anchors, unchanged and in order, and holds
/// exactly the chain-trusted certificates: resolution never drops an
/// anchor, and a candidate enters the result if and only if a chain of
/// valid CA links connects it to an anchor.
pub fn resolve_trust_chain(chain: Vec<CertData>, anchors: Vec<CertData>) -> (r: Vec<CertData>)
    ensures
        r@.len() >= anchors@.len(),
        forall|i: int| 0 <= i < anchors@.len() ==> r@[i] == anchors@[i],
        forall|m: CertModel|
            certs_view(r@).contains(m) <==> chain_trusted(certs_view(chain@), certs_view(anchors@), m),
{
    let ghost chain_m: Seq<CertModel> = certs_view(chain@);
    let ghost anchors_m: Seq<CertModel> = certs_view(anchors@);
    let mut trusted: Vec<CertData> = anchors;
    let mut pool: Vec<CertData> = chain;
    proof {
        assert forall|i: int| 0 <= i < trusted@.len() implies
            chain_trusted(chain_m, anchors_m, #[trigger] trusted@[i]@) by {
            assert(anchors_m[i] == trusted@[i]@);
            assert(anchors_m.contains(trusted@[i]@));
            lemma_anchor_trusted(chain_m, anchors_m, trusted@[i]@);
        }
        assert forall|i: int| 0 <= i < pool@.len() implies chain_m.contains(#[trigger] pool@[i]@) by {
            assert(chain_m[i] == pool@[i]@);
        }
    }
    loop
        invariant
            trusted@.len() >= anchors@.len(),
            forall|i: int| 0 <= i < anchors@.len() ==> trusted@[i] == anchors@[i],
            forall|i: int| 0 <= i < trusted@.len() ==> chain_trusted(chain_m, anchors_m, #[trigger] trusted@[i]@),
            forall|i: int| 0 <= i < pool@.len() ==> chain_m.contains(#[trigger] pool@[i]@),
            forall|m: CertModel| chain_m.contains(m) ==> certs_view(pool@).contains(m) || certs_view(trusted@).contains(m),
            chain_m == certs_view(chain@),
            anchors_m == certs_view(anchors@),
        ensures
            trusted@.len() >= anchors@.len(),
            forall|i: int| 0 <= i < anchors@.len() ==> trusted@[i] == anchors@[i],
            forall|m: CertModel|
                certs_view(trusted@).contains(m) <==> chain_trusted(chain_m, anchors_m, m),
        decreases pool@.len(),
    {
        let ghost trusted0 = trusted@;
        let ghost pool0 = pool@;
        let mut progress = false;
        let mut j: usize = 0;
        while j < pool.len()
            invariant
                trusted@.len() >= anchors@.len(),
                forall|i: int| 0 <= i < anchors@.len() ==> trusted@[i] == anchors@[i],
                forall|i: int| 0 <= i < trusted@.len() ==> chain_trusted(chain_m, anchors_m, #[trigger] trusted@[i]@),
                forall|i: int| 0 <= i < pool@.len() ==> chain_m.contains(#[trigger] pool@[i]@),
                forall|m: CertModel| chain_m.contains(m) ==> certs_view(pool@).contains(m) || certs_view(trusted@).contains(m),
                0 <= j <= pool@.len(),
                progress ==> pool@.len() < pool0.len(),
                !progress ==> trusted@ == trusted0 && pool@ == pool0,
                !progress ==> forall|k: int| 0 <= k < j ==> !promotable(certs_view(trusted@), #[trigger] pool@[k]@),
            decreases pool@.len() - j,
        {
            let is_ca = pool[j].is_ca;
            if is_ca && has_link(&trusted, &pool[j]) {
                let ghost old_pool = pool@;
                let ghost old_trusted = trusted@;
                let c = pool.remove(j);
                proof {
                    assert(chain_m.contains(old_pool[j as int]@));
                    let t_i = choose|i: int|
                        0 <= i < certs_view(old_trusted).len() && cert_link(#[trigger] certs_view(old_trusted)[i], c@);
                    assert(cert_link(old_trusted[t_i]@, c@));
                    lemma_step_trusted(chain_m, anchors_m, old_trusted[t_i]@, c@);
                }
                trusted.push(c);
                progress = true;
                proof {
                    assert forall|m: CertModel| chain_m.contains(m) implies
                        certs_view(pool@).contains(m) || certs_view(trusted@).contains(m) by {
                        if certs_view(old_pool).contains(m) {
                            let i = choose|i: int|
                                0 <= i < certs_view(old_pool).len() && certs_view(old_pool)[i] == m;
                            assert(old_pool[i]@ == m);
                            if i == j {
                                assert(trusted@[trusted@.len() - 1]@ == m);
                                lemma_view_contains(trusted@, trusted@.len() - 1);
                            } else if i < j {
                                assert(pool@[i]@ == m);
                                lemma_view_contains(pool@, i);
                            } else {
                                assert(pool@[i - 1]@ == m);
                                lemma_view_contains(pool@, i - 1);
                            }
                        } else {
                            let i = choose|i: int|
                                0 <= i < certs_view(old_trusted).len() && certs_view(old_trusted)[i] == m;
                            assert(trusted@[i]@ == m);
                            lemma_view_contains(trusted@, i);
                        }
                    }
                }
            } else {
                proof {
                    if !progress {
                        assert(!promotable(certs_view(trusted@), pool@[j as int]@));
                    }
                }
                j += 1;
            }
        }
        if !progress {
            proof {
                assert forall|a: CertModel| anchors_m.contains(a) implies certs_view(trusted@).contains(a) by {
                    let i = choose|i: int| 0 <= i < anchors_m.len() && anchors_m[i] == a;
                    assert(trusted@[i]@ == a);
                    lemma_view_contains(trusted@, i);
                }
                assert forall|k: int| 0 <= k < certs_view(pool@).len() implies
                    !promotable(certs_view(trusted@), #[trigger] certs_view(pool@)[k]) by {
                    assert(certs_view(pool@)[k] == pool@[k]@);
                    assert(!promotable(certs_view(trusted@), pool@[k]@));
                }
                assert forall|m: CertModel| chain_trusted(chain_m, anchors_m, m) implies
                    certs_view(trusted@).contains(m) by {
                    let n = choose|n: nat| trusted_at(chain_m, anchors_m, m, n);
                    lemma_fixpoint_complete(chain_m, anchors_m, certs_view(trusted@), certs_view(pool@), n);
                }
                assert forall|m: CertModel| certs_view(trusted@).contains(m) implies
                    chain_trusted(chain_m, anchors_m, m) by {
                    let i = choose|i: int|
                        0 <= i < certs_view(trusted@).len() && certs_view(trusted@)[i] == m;
                    assert(trusted@[i]@ == m);
                }
            }
            break;
        }
    }
    trusted
}

} // verus!
