//! The region directory: which servers serve a region.
use vstd::prelude::*;
use vstd::string::StringExecFns;

verus! {

/// Where the service is reached.
#[derive(Debug, Clone)]
pub enum Region {
    Europe,
    America,
    Switzerland,
    Singapore,
    /// A server of the caller's choice, given by its base address.
    Custom(String),
}

impl PartialEq for Region {
    fn eq(&self, other: &Region) -> (r: bool)
        ensures
            r == same_region(*self, *other),
    {
        match self {
            Region::Europe => match other {
                Region::Europe => true,
                _ => false,
            },
            Region::America => match other {
                Region::America => true,
                _ => false,
            },
            Region::Switzerland => match other {
                Region::Switzerland => true,
                _ => false,
            },
            Region::Singapore => match other {
                Region::Singapore => true,
                _ => false,
            },
            Region::Custom(a) => match other {
                Region::Custom(b) => *a == *b,
                _ => false,
            },
        }
    }
}

/// Two regions are the same selector, custom ones holding the same address.
pub open spec fn same_region(a: Region, b: Region) -> bool {
    match a {
        Region::Europe => b is Europe,
        Region::America => b is America,
        Region::Switzerland => b is Switzerland,
        Region::Singapore => b is Singapore,
        Region::Custom(x) => b is Custom && x@ == b->Custom_0@,
    }
}

impl vstd::std_specs::cmp::PartialEqSpecImpl for Region {
    open spec fn obeys_eq_spec() -> bool {
        true
    }

    open spec fn eq_spec(&self, other: &Region) -> bool {
        same_region(*self, *other)
    }
}

/// The addresses held by a list of strings.
pub open spec fn addresses(v: Seq<String>) -> Seq<Seq<char>> {
    v.map_values(|s: String| s@)
}

/// The high-availability address used for submissions; custom regions have none.
pub open spec fn region_primary(region: Region) -> Seq<char> {
    match region {
        Region::Europe => "https://faxws-ha.de.retarus.com"@,
        Region::America => "https://faxws-ha.us.retarus.com"@,
        Region::Switzerland => "https://faxws-ha.ch.retarus.com"@,
        Region::Singapore => "https://faxws.sg1.retarus.com"@,
        Region::Custom(_) => Seq::empty(),
    }
}

/// The ordered candidate servers used for queries.
pub open spec fn region_servers(region: Region) -> Seq<Seq<char>> {
    match region {
        Region::Europe => seq!["https://faxws.de2.retarus.com"@, "https://faxws.de1.retarus.com"@],
        Region::America => seq!["https://faxws.us2.retarus.com"@, "https://faxws.us1.retarus.com"@],
        Region::Switzerland => seq!["https://faxws.ch1.retarus.com"@],
        Region::Singapore => seq!["https://faxws.sg1.retarus.com"@],
        Region::Custom(addr) => seq![addr@],
    }
}

/// The region together with its primary address and candidate servers.
#[derive(Debug, Clone)]
pub struct RegionUri {
    pub region: Region,
    pub ha_addr: String,
    pub servers: Vec<String>,
}

impl RegionUri {
    pub fn new(region: Region, ha_addr: &str, servers: Vec<&str>) -> (r: RegionUri)
        ensures
            r.region == region,
            r.ha_addr@ == ha_addr@,
            r.servers@.len() == servers@.len(),
            forall|i: int| 0 <= i < servers@.len() ==> #[trigger] r.servers@[i]@ == servers@[i]@,
    {
        let mut c: Vec<String> = Vec::new();
        let mut i: usize = 0;
        while i < servers.len()
            invariant
                i <= servers@.len(),
                c@.len() == i,
                forall|j: int| 0 <= j < i ==> #[trigger] c@[j]@ == servers@[j]@,
            decreases servers@.len() - i,
        {
            c.push(String::from_str(servers[i]));
            i = i + 1;
        }
        RegionUri { region, ha_addr: String::from_str(ha_addr), servers: c }
    }
}

/// Resolves a region to its primary address and candidate servers.
///
/// A built-in region has a primary address and at least one candidate; a
/// custom region has an empty primary and the given address as its only
/// candidate.
pub fn determine_region_uri(region: Region) -> (r: RegionUri)
    ensures
        r.ha_addr@ == region_primary(region),
        addresses(r.servers@) == region_servers(region),
        r.servers@.len() == region_servers(region).len(),
        forall|i: int| 0 <= i < r.servers@.len() ==> #[trigger] r.servers@[i]@ == region_servers(region)[i],
        region is Custom ==> r.region is Custom,
        !(region is Custom) ==> r.region == region,
        !(region is Custom) ==> r.ha_addr@.len() > 0 && r.servers@.len() > 0,
{
    let r = match region {
        Region::Europe => RegionUri::new(
            Region::Europe,
            "https://faxws-ha.de.retarus.com",
            vec!["https://faxws.de2.retarus.com", "https://faxws.de1.retarus.com"],
        ),
        Region::America => RegionUri::new(
            Region::America,
            "https://faxws-ha.us.retarus.com",
            vec!["https://faxws.us2.retarus.com", "https://faxws.us1.retarus.com"],
        ),
        Region::Switzerland => RegionUri::new(
            Region::Switzerland,
            "https://faxws-ha.ch.retarus.com",
            vec!["https://faxws.ch1.retarus.com"],
        ),
        Region::Singapore => RegionUri::new(
            Region::Singapore,
            "https://faxws.sg1.retarus.com",
            vec!["https://faxws.sg1.retarus.com"],
        ),
        Region::Custom(data) => RegionUri::new(Region::Custom(String::new()), "", vec![data.as_str()]),
    };
    proof {
        reveal_strlit("https://faxws-ha.de.retarus.com");
        reveal_strlit("https://faxws-ha.us.retarus.com");
        reveal_strlit("https://faxws-ha.ch.retarus.com");
        reveal_strlit("https://faxws.sg1.retarus.com");
        reveal_strlit("");
    }
    assert(addresses(r.servers@) =~= region_servers(region));
    r
}

/// One URI per server: the server's address followed by `path`.
pub fn uris_with_path(servers: &Vec<String>, path: &str) -> (r: Vec<String>)
    ensures
        r@.len() == servers@.len(),
        forall|i: int| 0 <= i < servers@.len() ==> #[trigger] r@[i]@ == servers@[i]@ + path@,
{
    let mut r: Vec<String> = Vec::new();
    let mut i: usize = 0;
    while i < servers.len()
        invariant
            i <= servers@.len(),
            r@.len() == i,
            forall|j: int| 0 <= j < i ==> #[trigger] r@[j]@ == servers@[j]@ + path@,
        decreases servers@.len() - i,
    {
        let mut uri = servers[i].clone();
        uri.append(path);
        r.push(uri);
        i = i + 1;
    }
    r
}

} // verus!
