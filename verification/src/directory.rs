use crate::domain::{has_char, is_lookup_domain, normalized};
use crate::errors::WhoisError;
use crate::tld_mappings::ServerTable;
use vstd::prelude::*;

verus! {

/// Where the server of a top-level domain was found.
#[derive(Debug, Clone)]
pub enum Resolution {
    /// Among the servers discovered earlier.
    Cached(String),
    /// In the static table.
    Static(String),
    /// Nowhere yet: the server has to be discovered.
    Unknown,
}

/// `r` is the resolution of `tld`, given the servers discovered so far and the
/// static table: a discovered server comes first, then one of the static table.
pub open spec fn is_resolution(
    r: Resolution,
    discovered: Map<Seq<char>, Seq<char>>,
    fixed: Map<Seq<char>, Seq<char>>,
    tld: Seq<char>,
) -> bool {
    if discovered.contains_key(tld) {
        r matches Resolution::Cached(s) && s@ == discovered[tld]
    } else if fixed.contains_key(tld) {
        r matches Resolution::Static(s) && s@ == fixed[tld]
    } else {
        r is Unknown
    }
}

/// The servers of one protocol: a static table, which never changes, and the
/// servers discovered while the process runs, which are only ever added to.
#[derive(Debug)]
pub struct ServerDirectory {
    fixed: ServerTable,
    discovered: ServerTable,
}

impl ServerDirectory {
    /// The static table.
    pub closed spec fn fixed(&self) -> Map<Seq<char>, Seq<char>> {
        self.fixed@
    }

    /// The servers discovered so far.
    pub closed spec fn discovered(&self) -> Map<Seq<char>, Seq<char>> {
        self.discovered@
    }

    /// A directory with the static table `fixed` and nothing discovered.
    pub fn new(fixed: ServerTable) -> (d: ServerDirectory)
        ensures
            d.fixed() == fixed@,
            d.discovered() == Map::<Seq<char>, Seq<char>>::empty(),
    {
        ServerDirectory { fixed, discovered: ServerTable::new() }
    }

    /// Looks `tld` up without any network activity: among the discovered servers,
    /// then in the static table.
    pub fn find(&self, tld: &str) -> (r: Resolution)
        ensures
            is_resolution(r, self.discovered(), self.fixed(), tld@),
    {
        match self.discovered.get(tld) {
            Some(server) => {
                return Resolution::Cached(server.to_owned());
            },
            None => {},
        }
        match self.fixed.get(tld) {
            Some(server) => Resolution::Static(server.to_owned()),
            None => Resolution::Unknown,
        }
    }

    /// Remembers that `server` answers for `tld`. A server remembered for `tld`
    /// before is replaced; nothing else is forgotten.
    pub fn record_discovery(&mut self, tld: &str, server: &str)
        ensures
            final(self).fixed() == old(self).fixed(),
            final(self).discovered() == old(self).discovered().insert(tld@, server@),
            forall|k: Seq<char>|
                old(self).discovered().contains_key(k) ==> final(self).discovered().contains_key(k),
    {
        self.discovered.insert(tld, server);
    }
}

/// A top-level domain of the static table is resolved without discovery: from the
/// static table itself, unless a server was discovered for it earlier.
pub proof fn lemma_static_table_needs_no_discovery(
    r: Resolution,
    discovered: Map<Seq<char>, Seq<char>>,
    fixed: Map<Seq<char>, Seq<char>>,
    tld: Seq<char>,
)
    requires
        fixed.contains_key(tld),
        is_resolution(r, discovered, fixed, tld),
    ensures
        !(r is Unknown),
        !discovered.contains_key(tld) ==> (r matches Resolution::Static(s) && s@ == fixed[tld]),
{
}

/// What a lookup has to do first, once its domain is accepted.
#[derive(Debug, Clone)]
pub enum LookupStep {
    /// Ask `server` about `domain`: the server of `tld` is known.
    Query { domain: String, tld: String, server: String },
    /// Discover the server of `tld`: it is not known yet.
    Discover { domain: String, tld: String },
}

/// The name under which a lookup goes on: the domain trimmed and in lower case,
/// where that is not empty and holds a dot. `None` where the domain is refused.
pub open spec fn lookup_name(domain: Seq<char>) -> Option<Seq<char>> {
    match normalized(domain) {
        Some(d) => if d.len() == 0 || !has_char(d, '.') {
            None
        } else {
            Some(d)
        },
        None => None,
    }
}

/// `step` is the first step of a lookup of `domain` with the top-level domain
/// `tld`: a query of the server known for `tld`, or its discovery.
pub open spec fn is_plan(
    step: LookupStep,
    discovered: Map<Seq<char>, Seq<char>>,
    fixed: Map<Seq<char>, Seq<char>>,
    domain: Seq<char>,
    tld: Seq<char>,
) -> bool {
    if discovered.contains_key(tld) {
        step matches LookupStep::Query { domain: d, tld: t, server: s } && d@ == domain && t@ == tld
            && s@ == discovered[tld]
    } else if fixed.contains_key(tld) {
        step matches LookupStep::Query { domain: d, tld: t, server: s } && d@ == domain && t@ == tld
            && s@ == fixed[tld]
    } else {
        step matches LookupStep::Discover { domain: d, tld: t } && d@ == domain && t@ == tld
    }
}

/// `r` is how a lookup of `domain` begins. A domain that is empty or has no dot,
/// once trimmed and in lower case, is refused as invalid and nothing is asked
/// for. `tld` is the top-level domain found for the name, or `None` where the
/// suffix found is no text.
pub open spec fn is_first_step(
    r: Result<LookupStep, WhoisError>,
    discovered: Map<Seq<char>, Seq<char>>,
    fixed: Map<Seq<char>, Seq<char>>,
    domain: Seq<char>,
    tld: Option<Seq<char>>,
) -> bool {
    match lookup_name(domain) {
        None => r is Err && is_lookup_domain(Err(r->Err_0), domain),
        Some(name) => match tld {
            Some(t) => r matches Ok(step) && is_plan(step, discovered, fixed, name, t),
            None => r matches Err(WhoisError::InvalidDomain(m)) && m@
                == "Invalid UTF-8 in TLD for domain: "@ + name,
        },
    }
}

impl ServerDirectory {
    /// The first step of a lookup of `domain`, whose top-level domain is `tld`.
    pub fn plan(&self, domain: String, tld: String) -> (step: LookupStep)
        ensures
            is_plan(step, self.discovered(), self.fixed(), domain@, tld@),
    {
        match self.find(tld.as_str()) {
            Resolution::Cached(server) => LookupStep::Query { domain, tld, server },
            Resolution::Static(server) => LookupStep::Query { domain, tld, server },
            Resolution::Unknown => LookupStep::Discover { domain, tld },
        }
    }
}

/// A domain that is empty or has no dot, once trimmed and in lower case, is
/// refused as an invalid domain before anything is asked for.
pub proof fn lemma_refused_domain_asks_nothing(
    r: Result<LookupStep, WhoisError>,
    discovered: Map<Seq<char>, Seq<char>>,
    fixed: Map<Seq<char>, Seq<char>>,
    domain: Seq<char>,
    tld: Option<Seq<char>>,
)
    requires
        lookup_name(domain) is None,
        is_first_step(r, discovered, fixed, domain, tld),
    ensures
        r matches Err(WhoisError::InvalidDomain(_)),
{
}

} // verus!
