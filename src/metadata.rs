//! Identity facts of the machine: how each is settled from what was read, and
//! the cache that holds them once they are known.
use vstd::prelude::*;
use crate::models::Metadata;

verus! {

/// Characters with Unicode's `White_Space` property.
pub open spec fn is_white_space(c: char) -> bool {
    let u = c as u32;
    (9 <= u && u <= 13) || u == 32 || u == 0x85 || u == 0xA0 || u == 0x1680 || (0x2000 <= u && u
        <= 0x200A) || u == 0x2028 || u == 0x2029 || u == 0x202F || u == 0x205F || u == 0x3000
}

pub(crate) fn white_space(c: char) -> (r: bool)
    ensures
        r == is_white_space(c),
{
    let u = c as u32;
    (9 <= u && u <= 13) || u == 32 || u == 0x85 || u == 0xA0 || u == 0x1680 || (0x2000 <= u && u
        <= 0x200A) || u == 0x2028 || u == 0x2029 || u == 0x202F || u == 0x205F || u == 0x3000
}

/// `t` is `s` without its leading and trailing white space.
pub open spec fn is_trim_of(s: Seq<char>, t: Seq<char>) -> bool {
    exists|a: int, b: int|
        0 <= a <= b <= s.len() && t == s.subrange(a, b) && (forall|k: int|
            0 <= k < a ==> is_white_space(#[trigger] s[k])) && (forall|k: int|
            b <= k < s.len() ==> is_white_space(#[trigger] s[k])) && (a < b ==> !is_white_space(
            s[a]) && !is_white_space(s[b - 1]))
}

/// `s` without leading and trailing white space.
pub fn trim_text(s: &str) -> (r: String)
    ensures
        is_trim_of(s@, r@),
{
    let n = s.unicode_len();
    let mut a: usize = 0;
    while a < n && white_space(s.get_char(a))
        invariant
            n == s@.len(),
            a <= n,
            forall|k: int| 0 <= k < a ==> is_white_space(#[trigger] s@[k]),
        decreases n - a,
    {
        a = a + 1;
    }
    let mut b: usize = n;
    while b > a && white_space(s.get_char(b - 1))
        invariant
            n == s@.len(),
            a <= b <= n,
            forall|k: int| b <= k < n ==> is_white_space(#[trigger] s@[k]),
        decreases b - a,
    {
        b = b - 1;
    }
    let r = String::from_str(s.substring_char(a, b));
    assert(is_trim_of(s@, r@)) by {
        assert(a < n ==> !is_white_space(s@[a as int]));
    }
    r
}

/// What `str::to_lowercase` gives for a text.
pub uninterp spec fn lower_of(s: Seq<char>) -> Seq<char>;

/// Relies on `str::to_lowercase`: the text with every character mapped to
/// its Unicode lower case, which depends on the characters alone.
#[verifier::external_body]
fn lowercase(s: &str) -> (r: String)
    ensures
        r@ == lower_of(s@),
{
    s.to_lowercase()
}

/// `needle` occurs somewhere in `hay`.
pub open spec fn contains_seq(hay: Seq<char>, needle: Seq<char>) -> bool {
    exists|i: int| occurs_at(hay, needle, i)
}

/// Whether `needle` occurs in `hay`.
pub fn contains_text(hay: &str, needle: &str) -> (r: bool)
    ensures
        r == contains_seq(hay@, needle@),
{
    let n = hay.unicode_len();
    let m = needle.unicode_len();
    if m > n {
        return false;
    }
    if m == 0 {
        assert(hay@.subrange(0, 0) =~= needle@);
        assert(occurs_at(hay@, needle@, 0));
        return true;
    }
    let mut i: usize = 0;
    while i <= n - m
        invariant
            0 < m,
            n == hay@.len(),
            m == needle@.len(),
            m <= n,
            i <= n - m + 1,
            forall|k: int| 0 <= k < i ==> !occurs_at(hay@, needle@, k),
        decreases n - m + 1 - i,
    {
        if occurs_at_exec(hay, n, needle, m, i) {
            return true;
        }
        i = i + 1;
    }
    assert forall|k: int| !occurs_at(hay@, needle@, k) by {
        if 0 <= k < i {
        }
    }
    false
}

/// The (lower-cased) vendor string names a known hypervisor.
pub open spec fn names_hypervisor(v: Seq<char>) -> bool {
    contains_seq(v, "kvm"@) || contains_seq(v, "qemu"@) || contains_seq(v, "vmware"@)
        || contains_seq(v, "virtualbox"@) || contains_seq(v, "xen"@)
}

/// Classifies the machine from its vendor string and that string in lower
/// case: a virtual machine where the lower-cased vendor names a known
/// hypervisor, else physical.
pub fn virtualization_of(vendor: &str, lowered: &str) -> (r: String)
    ensures
        names_hypervisor(lowered@) ==> r@ == "Virtual Machine from "@ + vendor@,
        !names_hypervisor(lowered@) ==> r@ == "Physical"@,
{
    if contains_text(lowered, "kvm") || contains_text(lowered, "qemu") || contains_text(
        lowered,
        "vmware",
    ) || contains_text(lowered, "virtualbox") || contains_text(lowered, "xen") {
        let mut r = String::from_str("Virtual Machine from ");
        r.append(vendor);
        r
    } else {
        String::from_str("Physical")
    }
}

/// Classifies the machine from its hardware vendor string, compared in lower
/// case: a virtual machine where it names a known hypervisor, else physical.
pub fn detect_virtualization(vendor: &str) -> (r: String)
    ensures
        names_hypervisor(lower_of(vendor@)) ==> r@ == "Virtual Machine from "@ + vendor@,
        !names_hypervisor(lower_of(vendor@)) ==> r@ == "Physical"@,
{
    let lowered = lowercase(vendor);
    virtualization_of(vendor, lowered.as_str())
}

/// `pat` occurs in `s` at `i`, exactly.
pub open spec fn occurs_at(s: Seq<char>, pat: Seq<char>, i: int) -> bool {
    0 <= i && i + pat.len() <= s.len() && s.subrange(i, i + pat.len()) == pat
}

/// The zone name in the target of the local-time link: what follows the
/// first `zoneinfo/` in it.
pub open spec fn zone_of_link_spec(path: Seq<char>) -> Option<Seq<char>> {
    if exists|i: int| occurs_at(path, "zoneinfo/"@, i) {
        let i = choose|i: int| occurs_at(path, "zoneinfo/"@, i) && forall|j: int|
            0 <= j < i ==> !occurs_at(path, "zoneinfo/"@, j);
        Some(path.subrange(i + 9, path.len() as int))
    } else {
        None
    }
}

proof fn lemma_first_occurrence(path: Seq<char>, i: int)
    requires
        occurs_at(path, "zoneinfo/"@, i),
        forall|j: int| 0 <= j < i ==> !occurs_at(path, "zoneinfo/"@, j),
    ensures
        zone_of_link_spec(path) == Some(path.subrange(i + 9, path.len() as int)),
{
    let k = choose|k: int| occurs_at(path, "zoneinfo/"@, k) && forall|j: int|
        0 <= j < k ==> !occurs_at(path, "zoneinfo/"@, j);
    if k < i {
        assert(!occurs_at(path, "zoneinfo/"@, k));
    } else if k > i {
        assert(!occurs_at(path, "zoneinfo/"@, i));
    }
}

fn occurs_at_exec(s: &str, n: usize, pat: &str, m: usize, i: usize) -> (r: bool)
    requires
        n == s@.len(),
        m == pat@.len(),
        i + m <= n,
    ensures
        r == occurs_at(s@, pat@, i as int),
{
    let mut j: usize = 0;
    while j < m
        invariant
            n == s@.len(),
            m == pat@.len(),
            i + m <= n,
            j <= m,
            forall|k: int| 0 <= k < j ==> #[trigger] s@[i + k] == pat@[k],
        decreases m - j,
    {
        if s.get_char(i + j) != pat.get_char(j) {
            assert(s@.subrange(i as int, i + m)[j as int] != pat@[j as int]);
            return false;
        }
        j = j + 1;
    }
    assert forall|k: int| 0 <= k < m implies #[trigger] s@.subrange(i as int, i + m)[k] == pat@[k] by {
        assert(s@[i + k] == pat@[k]);
    }
    assert(s@.subrange(i as int, i + m) =~= pat@);
    true
}

/// The zone name that a local-time link's target gives, if it holds `zoneinfo/`.
pub fn timezone_from_link(path: &str) -> (r: Option<String>)
    ensures
        r matches Some(z) ==> zone_of_link_spec(path@) == Some(z@),
        r is None ==> zone_of_link_spec(path@) is None,
{
    let pat = "zoneinfo/";
    proof {
        reveal_strlit("zoneinfo/");
    }
    let n = path.unicode_len();
    let m = pat.unicode_len();
    assert(m == 9);
    if m > n {
        assert forall|k: int| !occurs_at(path@, "zoneinfo/"@, k) by {}
        return None;
    }
    let mut i: usize = 0;
    while i <= n - m
        invariant
            n == path@.len(),
            m == pat@.len() == 9,
            pat@ == "zoneinfo/"@,
            m <= n,
            i <= n - m + 1,
            forall|k: int| 0 <= k < i ==> !occurs_at(path@, "zoneinfo/"@, k),
        decreases n - m + 1 - i,
    {
        if occurs_at_exec(path, n, pat, m, i) {
            proof {
                lemma_first_occurrence(path@, i as int);
            }
            return Some(String::from_str(path.substring_char(i + m, n)));
        }
        i = i + 1;
    }
    assert forall|k: int| !occurs_at(path@, "zoneinfo/"@, k) by {
        if 0 <= k < i {
        }
    }
    None
}

pub open spec fn timezone_spec(tz_file: Option<String>, link_target: Option<String>, r: Seq<char>) -> bool {
    match tz_file {
        Some(c) => is_trim_of(c@, r),
        None => match link_target {
            Some(p) => match zone_of_link_spec(p@) {
                Some(z) => r == z,
                None => r == "Unknown"@,
            },
            None => r == "Unknown"@,
        },
    }
}

/// The configured time zone: the trimmed content of the time-zone file where
/// it could be read, else the zone named by the local-time link, else
/// `Unknown`.
pub fn resolve_timezone(tz_file: Option<String>, link_target: Option<String>) -> (r: String)
    ensures
        timezone_spec(tz_file, link_target, r@),
{
    match tz_file {
        Some(c) => trim_text(c.as_str()),
        None => match link_target {
            Some(p) => match timezone_from_link(p.as_str()) {
                Some(z) => z,
                None => String::from_str("Unknown"),
            },
            None => String::from_str("Unknown"),
        },
    }
}

/// The first of the identity files, in order, that could be read.
pub open spec fn first_read(reads: Seq<Option<String>>) -> Option<String>
    decreases reads.len(),
{
    if reads.len() == 0 {
        None
    } else if reads[0] is Some {
        reads[0]
    } else {
        first_read(reads.drop_first())
    }
}

/// The machine id: the content of the first identity file that could be
/// read, or the empty string where none could.
pub fn get_machine_id(reads: &Vec<Option<String>>) -> (r: String)
    ensures
        match first_read(reads@) {
            Some(id) => r == id,
            None => r@.len() == 0,
        },
{
    let mut i: usize = 0;
    assert(reads@.subrange(0, reads@.len() as int) =~= reads@);
    while i < reads.len()
        invariant
            i <= reads@.len(),
            first_read(reads@.subrange(i as int, reads@.len() as int)) == first_read(reads@),
        decreases reads@.len() - i,
    {
        let ghost rest = reads@.subrange(i as int, reads@.len() as int);
        assert(rest.drop_first() =~= reads@.subrange(i as int + 1, reads@.len() as int));
        match &reads[i] {
            Some(id) => {
                return id.clone();
            },
            None => {},
        }
        i = i + 1;
    }
    assert(reads@.subrange(i as int, reads@.len() as int) =~= Seq::<Option<String>>::empty());
    String::new()
}

/// The distribution name, or `unknown` where it could not be had.
pub fn os_distro_or_unknown(distro: Option<String>) -> (r: String)
    ensures
        match distro {
            Some(d) => r == d,
            None => r@ == "unknown"@,
        },
{
    match distro {
        Some(d) => d,
        None => String::from_str("unknown"),
    }
}

/// The identity facts that do not change while the process runs, as read.
#[derive(Clone, Debug)]
pub struct StaticMetadata {
    pub machine_id: String,
    pub hostname: String,
    pub os_distro: String,
    pub virtualization: String,
    pub timezone: String,
}

/// Settles the static identity facts from what the probes read: the identity
/// files in order, the host name, the distribution, the hardware vendor string
/// and the two time-zone sources.
pub fn static_metadata(
    machine_id_reads: &Vec<Option<String>>,
    hostname: String,
    distro: Option<String>,
    dmi_vendor: Option<String>,
    tz_file: Option<String>,
    tz_link_target: Option<String>,
) -> (m: StaticMetadata)
    ensures
        match first_read(machine_id_reads@) {
            Some(id) => m.machine_id == id,
            None => m.machine_id@.len() == 0,
        },
        m.hostname == hostname,
        match distro {
            Some(d) => m.os_distro == d,
            None => m.os_distro@ == "unknown"@,
        },
        timezone_spec(tz_file, tz_link_target, m.timezone@),
        exists|v: Seq<char>|
            (match dmi_vendor {
                Some(raw) => is_trim_of(raw@, v),
                None => v.len() == 0,
            }) && (names_hypervisor(lower_of(v)) ==> m.virtualization@ == "Virtual Machine from "@
                + v) && (!names_hypervisor(lower_of(v)) ==> m.virtualization@ == "Physical"@),
{
    let vendor = match dmi_vendor {
        Some(raw) => trim_text(raw.as_str()),
        None => String::new(),
    };
    let virtualization = detect_virtualization(vendor.as_str());
    let ghost v = vendor@;
    assert((match dmi_vendor {
        Some(raw) => is_trim_of(raw@, v),
        None => v.len() == 0,
    }) && (names_hypervisor(lower_of(v)) ==> virtualization@ == "Virtual Machine from "@ + v) && (
    !names_hypervisor(lower_of(v)) ==> virtualization@ == "Physical"@));
    let os_distro = os_distro_or_unknown(distro);
    StaticMetadata {
        machine_id: get_machine_id(machine_id_reads),
        hostname,
        os_distro,
        virtualization,
        timezone: resolve_timezone(tz_file, tz_link_target),
    }
}

/// Holds the static identity facts once they are known.
pub struct MetadataCache {
    pub cached: Option<StaticMetadata>,
}

/// `m` is the cache's static facts, trimmed, with the given uptime and boot time.
pub open spec fn merged(s: StaticMetadata, uptime: u64, boot_time: u64, m: Metadata) -> bool {
    &&& is_trim_of(s.machine_id@, m.machine_id@)
    &&& is_trim_of(s.hostname@, m.hostname@)
    &&& is_trim_of(s.os_distro@, m.os_distro@)
    &&& is_trim_of(s.virtualization@, m.virtualization@)
    &&& is_trim_of(s.timezone@, m.timezone@)
    &&& m.uptime == uptime
    &&& m.boot_time == boot_time
}

/// The static part of a report's metadata.
pub open spec fn static_view(m: Metadata) -> (Seq<char>, Seq<char>, Seq<char>, Seq<char>, Seq<char>) {
    (m.machine_id@, m.hostname@, m.os_distro@, m.virtualization@, m.timezone@)
}

proof fn lemma_trim_unique(s: Seq<char>, t1: Seq<char>, t2: Seq<char>)
    requires
        is_trim_of(s, t1),
        is_trim_of(s, t2),
    ensures
        t1 == t2,
{
    let (a1, b1) = choose|a: int, b: int|
        0 <= a <= b <= s.len() && t1 == s.subrange(a, b) && (forall|k: int|
            0 <= k < a ==> is_white_space(#[trigger] s[k])) && (forall|k: int|
            b <= k < s.len() ==> is_white_space(#[trigger] s[k])) && (a < b ==> !is_white_space(
            s[a]) && !is_white_space(s[b - 1]));
    let (a2, b2) = choose|a: int, b: int|
        0 <= a <= b <= s.len() && t2 == s.subrange(a, b) && (forall|k: int|
            0 <= k < a ==> is_white_space(#[trigger] s[k])) && (forall|k: int|
            b <= k < s.len() ==> is_white_space(#[trigger] s[k])) && (a < b ==> !is_white_space(
            s[a]) && !is_white_space(s[b - 1]));
    if a1 < b1 && a2 < b2 {
        assert(a1 == a2);
        assert(b1 == b2);
    } else if a1 < b1 {
        assert(false) by {
            if a2 <= a1 {
                assert(!is_white_space(s[a1]));
            }
        }
    } else if a2 < b2 {
        assert(false) by {
            if a1 <= a2 {
                assert(!is_white_space(s[a2]));
            }
        }
    }
    assert(t1 =~= t2);
}

/// Every report built from one cache carries the same static facts, whatever
/// the uptime and boot time of each.
pub proof fn lemma_static_facts_stable(
    s: StaticMetadata,
    u1: u64,
    b1: u64,
    m1: Metadata,
    u2: u64,
    b2: u64,
    m2: Metadata,
)
    requires
        merged(s, u1, b1, m1),
        merged(s, u2, b2, m2),
    ensures
        static_view(m1) == static_view(m2),
{
    lemma_trim_unique(s.machine_id@, m1.machine_id@, m2.machine_id@);
    lemma_trim_unique(s.hostname@, m1.hostname@, m2.hostname@);
    lemma_trim_unique(s.os_distro@, m1.os_distro@, m2.os_distro@);
    lemma_trim_unique(s.virtualization@, m1.virtualization@, m2.virtualization@);
    lemma_trim_unique(s.timezone@, m1.timezone@, m2.timezone@);
}

impl MetadataCache {
    pub fn new() -> (c: Self)
        ensures
            c.cached is None,
    {
        MetadataCache { cached: None }
    }

    /// Whether the static facts still have to be probed.
    pub fn needs_probe(&self) -> (r: bool)
        ensures
            r == (self.cached is None),
    {
        self.cached.is_none()
    }

    /// Stores the probed facts unless some are stored already: the first
    /// facts stored are kept for good.
    pub fn initialize(&mut self, facts: StaticMetadata)
        ensures
            old(self).cached is Some ==> final(self).cached == old(self).cached,
            old(self).cached is None ==> final(self).cached == Some(facts),
    {
        if self.cached.is_none() {
            self.cached = Some(facts);
        }
    }
}

/// The metadata of one report: the cached static facts, trimmed, with this
/// tick's uptime and boot time; `None` while nothing is cached.
pub fn get_machine_metadata(cache: &MetadataCache, uptime: u64, boot_time: u64) -> (r: Option<Metadata>)
    ensures
        cache.cached is None ==> r is None,
        cache.cached matches Some(s) ==> r matches Some(m) && merged(s, uptime, boot_time, m),
{
    match &cache.cached {
        Some(s) => Some(
            Metadata {
                machine_id: trim_text(s.machine_id.as_str()),
                hostname: trim_text(s.hostname.as_str()),
                os_distro: trim_text(s.os_distro.as_str()),
                uptime,
                virtualization: trim_text(s.virtualization.as_str()),
                boot_time,
                timezone: trim_text(s.timezone.as_str()),
            },
        ),
        None => None,
    }
}

} // verus!
