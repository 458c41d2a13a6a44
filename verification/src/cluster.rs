use vstd::prelude::*;

verus! {

/// Derived profile of the addresses seen at session start: how many look
/// suspicious, which ones were tagged, and which look like LP wallets.
#[derive(Debug, Clone)]
pub struct ClusterProfile {
    pub suspicious_wallets: usize,
    pub tagged_wallets: Vec<String>,
    pub lp_candidates: Vec<String>,
}

/// An address is tagged suspicious when its last character is '0' or 'f'.
pub open spec fn spec_addr_suspicious(a: Seq<char>) -> bool {
    a.len() > 0 && (a.last() == '0' || a.last() == 'f')
}

/// An address is an LP candidate when its first character is 'L'.
pub open spec fn spec_addr_lp_candidate(a: Seq<char>) -> bool {
    a.len() > 0 && a.first() == 'L'
}

/// The (views of the) addresses tagged suspicious, in input order.
pub open spec fn spec_tagged_views(addrs: Seq<String>) -> Seq<Seq<char>>
    decreases addrs.len(),
{
    if addrs.len() == 0 {
        Seq::empty()
    } else if spec_addr_suspicious(addrs.last()@) {
        spec_tagged_views(addrs.drop_last()).push(addrs.last()@)
    } else {
        spec_tagged_views(addrs.drop_last())
    }
}

/// The (views of the) LP-candidate addresses, in input order.
pub open spec fn spec_lp_views(addrs: Seq<String>) -> Seq<Seq<char>>
    decreases addrs.len(),
{
    if addrs.len() == 0 {
        Seq::empty()
    } else if spec_addr_lp_candidate(addrs.last()@) {
        spec_lp_views(addrs.drop_last()).push(addrs.last()@)
    } else {
        spec_lp_views(addrs.drop_last())
    }
}

impl ClusterProfile {
    /// A profile with no suspicious wallets and no candidates.
    pub fn empty() -> (p: Self)
        ensures
            p.suspicious_wallets == 0,
            p.tagged_wallets@ =~= Seq::<String>::empty(),
            p.lp_candidates@ =~= Seq::<String>::empty(),
    {
        Self { suspicious_wallets: 0, tagged_wallets: Vec::new(), lp_candidates: Vec::new() }
    }
}

/// Classifies a set of addresses once, at session start: counts and tags the
/// suspicious ones (last character '0' or 'f') and collects the LP
/// candidates (first character 'L').
pub fn analyze_addresses(addresses: &[String]) -> (profile: ClusterProfile)
    ensures
        profile.tagged_wallets@.map_values(|s: String| s@) == spec_tagged_views(addresses@),
        profile.lp_candidates@.map_values(|s: String| s@) == spec_lp_views(addresses@),
        profile.suspicious_wallets == spec_tagged_views(addresses@).len(),
{
    let mut profile = ClusterProfile::empty();
    let n = addresses.len();
    assert(addresses@.take(0) =~= Seq::<String>::empty());
    assert(profile.tagged_wallets@.map_values(|s: String| s@) =~= Seq::<Seq<char>>::empty());
    assert(profile.lp_candidates@.map_values(|s: String| s@) =~= Seq::<Seq<char>>::empty());
    for i in 0..n
        invariant
            n == addresses@.len(),
            profile.tagged_wallets@.map_values(|s: String| s@) == spec_tagged_views(
                addresses@.take(i as int),
            ),
            profile.lp_candidates@.map_values(|s: String| s@) == spec_lp_views(
                addresses@.take(i as int),
            ),
            profile.suspicious_wallets == spec_tagged_views(addresses@.take(i as int)).len(),
            profile.suspicious_wallets <= i,
    {
        let addr = &addresses[i];
        let len = addr.as_str().unicode_len();
        let ghost prefix = addresses@.take(i as int);
        assert(addresses@.take(i + 1).drop_last() =~= prefix);
        assert(addresses@.take(i + 1).last() == addresses@[i as int]);
        if len > 0 {
            let last = addr.as_str().get_char(len - 1);
            if last == '0' || last == 'f' {
                let ghost old_tagged = profile.tagged_wallets@;
                profile.suspicious_wallets = profile.suspicious_wallets + 1;
                profile.tagged_wallets.push(addr.clone());
                assert(profile.tagged_wallets@.map_values(|s: String| s@) =~= old_tagged
                    .map_values(|s: String| s@).push(addresses@[i as int]@));
            }
            let first = addr.as_str().get_char(0);
            if first == 'L' {
                let ghost old_lp = profile.lp_candidates@;
                profile.lp_candidates.push(addr.clone());
                assert(profile.lp_candidates@.map_values(|s: String| s@) =~= old_lp.map_values(
                    |s: String| s@,
                ).push(addresses@[i as int]@));
            }
        }
    }
    assert(addresses@.take(n as int) =~= addresses@);
    profile
}

} // verus!
