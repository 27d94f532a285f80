//! Reading what the supervisors' query commands print.
use vstd::prelude::*;

verus! {

/// `systemctl is-active` reports the unit active: its output starts with
/// `active`.
pub open spec fn reports_active(out: Seq<char>) -> bool {
    out.len() >= 6 && out.take(6) == "active"@
}

/// `systemctl is-enabled` reports the unit enabled: its output starts with
/// `enabled` or `linked`.
pub open spec fn reports_enabled(out: Seq<char>) -> bool {
    (out.len() >= 7 && out.take(7) == "enabled"@) || (out.len() >= 6 && out.take(6) == "linked"@)
}

fn starts_with(s: &str, prefix: &str) -> (r: bool)
    ensures
        r == (prefix@.len() <= s@.len() && s@.take(prefix@.len() as int) == prefix@),
{
    let n = prefix.unicode_len();
    if n > s.unicode_len() {
        return false;
    }
    let mut i: usize = 0;
    while i < n
        invariant
            n == prefix@.len(),
            n <= s@.len(),
            i <= n,
            forall|k: int| 0 <= k < i ==> s@[k] == prefix@[k],
        decreases n - i,
    {
        if s.get_char(i) != prefix.get_char(i) {
            assert(s@.take(n as int)[i as int] != prefix@[i as int]);
            return false;
        }
        i = i + 1;
    }
    assert(s@.take(n as int) =~= prefix@);
    true
}

/// Reads the output of `systemctl is-active`.
pub fn unit_is_active(output: &str) -> (r: bool)
    ensures
        r == reports_active(output@),
{
    proof {
        reveal_strlit("active");
    }
    starts_with(output, "active")
}

/// Reads the output of `systemctl is-enabled`.
pub fn unit_is_enabled(output: &str) -> (r: bool)
    ensures
        r == reports_enabled(output@),
{
    proof {
        reveal_strlit("enabled");
        reveal_strlit("linked");
    }
    starts_with(output, "enabled") || starts_with(output, "linked")
}

/// What `launchctl print-disabled system` prints for the daemon's service
/// when it is disabled, in its two known spellings.
pub const LAUNCHD_DISABLED: &'static str = "\"org.nixos.nix-daemon\" => disabled";
pub const LAUNCHD_DISABLED_LEGACY: &'static str = "\"org.nixos.nix-daemon\" => true";

/// `p` occurs in `s`.
pub open spec fn occurs_in(p: Seq<char>, s: Seq<char>) -> bool {
    exists|i: int| 0 <= i && i + p.len() <= s.len() && #[trigger] s.subrange(i, i + p.len()) == p
}

fn occurs_at(s: &str, n: usize, p: &str, m: usize, i: usize) -> (r: bool)
    requires
        n == s@.len(),
        m == p@.len(),
        i + m <= n,
    ensures
        r == (s@.subrange(i as int, i + m) == p@),
{
    let mut k: usize = 0;
    while k < m
        invariant
            n == s@.len(),
            m == p@.len(),
            i + m <= n,
            k <= m,
            forall|j: int| 0 <= j < k ==> s@[i + j] == p@[j],
        decreases m - k,
    {
        if s.get_char(i + k) != p.get_char(k) {
            assert(s@.subrange(i as int, i + m)[k as int] != p@[k as int]);
            return false;
        }
        k = k + 1;
    }
    assert(s@.subrange(i as int, i + m) =~= p@);
    true
}

fn contains(s: &str, p: &str) -> (r: bool)
    ensures
        r == occurs_in(p@, s@),
{
    let n = s.unicode_len();
    let m = p.unicode_len();
    if m > n {
        return false;
    }
    if m == 0 {
        assert(s@.subrange(0, 0 + p@.len() as int) =~= p@);
        return true;
    }
    let mut i: usize = 0;
    while i <= n - m
        invariant
            n == s@.len(),
            m == p@.len(),
            0 < m <= n,
            i <= n - m + 1,
            forall|j: int| 0 <= j < i ==> #[trigger] s@.subrange(j, j + m) != p@,
        decreases n - m + 1 - i,
    {
        if occurs_at(s, n, p, m, i) {
            assert(s@.subrange(i as int, i + p@.len()) == p@);
            return true;
        }
        i = i + 1;
    }
    assert forall|j: int| 0 <= j && j + p@.len() <= s@.len() implies #[trigger] s@.subrange(
        j,
        j + p@.len(),
    ) != p@ by {
        assert(s@.subrange(j, j + m) != p@);
    }
    false
}

/// Reads the output of `launchctl print-disabled system`: the daemon's
/// service is listed as disabled.
pub fn launchd_reports_disabled(output: &str) -> (r: bool)
    ensures
        r == (occurs_in(LAUNCHD_DISABLED@, output@) || occurs_in(LAUNCHD_DISABLED_LEGACY@, output@)),
{
    contains(output, LAUNCHD_DISABLED) || contains(output, LAUNCHD_DISABLED_LEGACY)
}

} // verus!
