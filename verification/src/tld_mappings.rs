use crate::text::same_text;
use vstd::prelude::*;

verus! {

/// The server that answers for a top-level domain: a host for WHOIS, a base URL
/// for RDAP.
#[derive(Debug, Clone)]
pub struct ServerRecord {
    pub tld: String,
    pub server: String,
}

/// A mapping from top-level domains to servers, with one record to a domain.
#[derive(Debug)]
pub struct ServerTable {
    records: Vec<ServerRecord>,
}

/// The mapping that a list of records stands for: a later record of a domain
/// replaces an earlier one.
pub open spec fn mapping_of(records: Seq<ServerRecord>) -> Map<Seq<char>, Seq<char>>
    decreases records.len(),
{
    if records.len() == 0 {
        Map::empty()
    } else {
        mapping_of(records.drop_last()).insert(records.last().tld@, records.last().server@)
    }
}

/// The mapping that a list of pairs stands for: a later pair of a domain replaces
/// an earlier one.
pub open spec fn mapping_of_pairs(pairs: Seq<(Seq<char>, Seq<char>)>) -> Map<Seq<char>, Seq<char>>
    decreases pairs.len(),
{
    if pairs.len() == 0 {
        Map::empty()
    } else {
        mapping_of_pairs(pairs.drop_last()).insert(pairs.last().0, pairs.last().1)
    }
}

/// No two of `records` are for the same domain.
pub open spec fn distinct_tlds(records: Seq<ServerRecord>) -> bool {
    forall|i: int, j: int|
        0 <= i < j < records.len() ==> (#[trigger] records[i]).tld@ != (#[trigger] records[j]).tld@
}

proof fn lemma_mapping_absent(records: Seq<ServerRecord>, tld: Seq<char>)
    requires
        forall|i: int| 0 <= i < records.len() ==> (#[trigger] records[i]).tld@ != tld,
    ensures
        !mapping_of(records).contains_key(tld),
    decreases records.len(),
{
    if records.len() > 0 {
        let front = records.drop_last();
        assert forall|i: int| 0 <= i < front.len() implies (#[trigger] front[i]).tld@ != tld by {
            assert(front[i] == records[i]);
        }
        lemma_mapping_absent(front, tld);
        assert(records.last() == records[records.len() - 1]);
    }
}

proof fn lemma_mapping_present(records: Seq<ServerRecord>, k: int)
    requires
        0 <= k < records.len(),
        distinct_tlds(records),
    ensures
        mapping_of(records).contains_key(records[k].tld@),
        mapping_of(records)[records[k].tld@] == records[k].server@,
    decreases records.len(),
{
    let front = records.drop_last();
    if k < records.len() - 1 {
        assert forall|i: int, j: int| 0 <= i < j < front.len() implies (#[trigger] front[i]).tld@ != (
        #[trigger] front[j]).tld@ by {
            assert(front[i] == records[i] && front[j] == records[j]);
        }
        assert(front[k] == records[k]);
        lemma_mapping_present(front, k);
        assert(records.last() == records[records.len() - 1]);
    }
}

proof fn lemma_mapping_update(records: Seq<ServerRecord>, k: int, record: ServerRecord)
    requires
        0 <= k < records.len(),
        distinct_tlds(records),
        record.tld@ == records[k].tld@,
    ensures
        distinct_tlds(records.update(k, record)),
        mapping_of(records.update(k, record)) == mapping_of(records).insert(
            record.tld@,
            record.server@,
        ),
    decreases records.len(),
{
    let updated = records.update(k, record);
    assert forall|i: int, j: int| 0 <= i < j < updated.len() implies (#[trigger] updated[i]).tld@ != (
    #[trigger] updated[j]).tld@ by {
        assert(records[i].tld@ != records[j].tld@);
    }
    let front = records.drop_last();
    assert forall|i: int, j: int| 0 <= i < j < front.len() implies (#[trigger] front[i]).tld@ != (
    #[trigger] front[j]).tld@ by {
        assert(front[i] == records[i] && front[j] == records[j]);
    }
    if k == records.len() - 1 {
        assert(updated.drop_last() =~= front);
        assert(mapping_of(updated) =~= mapping_of(records).insert(record.tld@, record.server@));
    } else {
        assert(front[k] == records[k]);
        lemma_mapping_update(front, k, record);
        assert(updated.drop_last() =~= front.update(k, record));
        assert(updated.last() == records.last());
        assert(records.last() == records[records.len() - 1]);
        assert(records.last().tld@ != record.tld@);
        assert(mapping_of(updated) =~= mapping_of(records).insert(record.tld@, record.server@));
    }
}

impl View for ServerTable {
    type V = Map<Seq<char>, Seq<char>>;

    closed spec fn view(&self) -> Map<Seq<char>, Seq<char>> {
        mapping_of(self.records@)
    }
}

impl ServerTable {
    /// No domain has two records.
    #[verifier::type_invariant]
    spec fn well_formed(self) -> bool {
        distinct_tlds(self.records@)
    }

    /// The number of domains that have a server.
    pub closed spec fn spec_len(&self) -> nat {
        self.records@.len()
    }

    /// The table without any record.
    pub fn new() -> (table: ServerTable)
        ensures
            table@ == Map::<Seq<char>, Seq<char>>::empty(),
            table.spec_len() == 0,
    {
        ServerTable { records: Vec::new() }
    }

    /// The number of domains that have a server.
    pub fn len(&self) -> (n: usize)
        ensures
            n == self.spec_len(),
    {
        self.records.len()
    }

    fn position(&self, tld: &str) -> (r: Option<usize>)
        ensures
            match r {
                Some(k) => k < self.records@.len() && self.records@[k as int].tld@ == tld@,
                None => forall|i: int|
                    0 <= i < self.records@.len() ==> (#[trigger] self.records@[i]).tld@ != tld@,
            },
    {
        let mut i: usize = 0;
        while i < self.records.len()
            invariant
                i <= self.records@.len(),
                forall|j: int| 0 <= j < i ==> (#[trigger] self.records@[j]).tld@ != tld@,
            decreases self.records@.len() - i,
        {
            if same_text(self.records[i].tld.as_str(), tld) {
                return Some(i);
            }
            i += 1;
        }
        None
    }

    /// The server of `tld`, where the table has one.
    pub fn get(&self, tld: &str) -> (r: Option<&str>)
        ensures
            match r {
                Some(server) => self@.contains_key(tld@) && self@[tld@] == server@,
                None => !self@.contains_key(tld@),
            },
    {
        proof {
            use_type_invariant(self);
        }
        match self.position(tld) {
            Some(k) => {
                proof {
                    lemma_mapping_present(self.records@, k as int);
                }
                Some(self.records[k].server.as_str())
            },
            None => {
                proof {
                    lemma_mapping_absent(self.records@, tld@);
                }
                None
            },
        }
    }

    /// Sets the server of `tld`: a server held for it before is replaced, and no
    /// other domain loses its server.
    pub fn insert(&mut self, tld: &str, server: &str)
        ensures
            final(self)@ == old(self)@.insert(tld@, server@),
            forall|k: Seq<char>| old(self)@.contains_key(k) ==> final(self)@.contains_key(k),
    {
        proof {
            use_type_invariant(&*self);
        }
        let record = ServerRecord { tld: tld.to_owned(), server: server.to_owned() };
        let found = self.position(tld);
        let mut records: Vec<ServerRecord> = Vec::new();
        core::mem::swap(&mut records, &mut self.records);
        match found {
            Some(k) => {
                proof {
                    lemma_mapping_update(records@, k as int, record);
                }
                records.set(k, record);
            },
            None => {
                proof {
                    let grown = records@.push(record);
                    assert(grown.drop_last() =~= records@);
                    assert forall|i: int, j: int| 0 <= i < j < grown.len() implies (
                    #[trigger] grown[i]).tld@ != (#[trigger] grown[j]).tld@ by {
                        if j < records@.len() {
                            assert(records@[i].tld@ != records@[j].tld@);
                        } else {
                            assert(grown[i] == records@[i]);
                        }
                    }
                }
                records.push(record);
            },
        }
        self.records = records;
    }
}

/// The WHOIS servers of the most common top-level domains.
pub open spec fn hardcoded_tld_servers() -> Seq<(Seq<char>, Seq<char>)> {
    seq![
        ("com"@, "whois.verisign-grs.com"@),
        ("net"@, "whois.verisign-grs.com"@),
        ("org"@, "whois.pir.org"@),
        ("info"@, "whois.afilias.net"@),
        ("biz"@, "whois.neulevel.biz"@),
        ("name"@, "whois.nic.name"@),
        ("pro"@, "whois.registrypro.pro"@),
        ("xyz"@, "whois.nic.xyz"@),
        ("top"@, "whois.nic.top"@),
        ("shop"@, "whois.nic.shop"@),
        ("online"@, "whois.nic.online"@),
        ("store"@, "whois.nic.store"@),
        ("site"@, "whois.nic.site"@),
        ("app"@, "whois.nic.google"@),
        ("dev"@, "whois.nic.google"@),
        ("tech"@, "whois.nic.tech"@),
        ("blog"@, "whois.nic.blog"@),
        ("club"@, "whois.nic.club"@),
        ("live"@, "whois.nic.live"@),
        ("fun"@, "whois.nic.fun"@),
        ("vip"@, "whois.nic.vip"@),
        ("click"@, "whois.uniregistry.net"@),
        ("uk"@, "whois.nic.uk"@),
        ("co.uk"@, "whois.nic.uk"@),
        ("org.uk"@, "whois.nic.uk"@),
        ("me.uk"@, "whois.nic.uk"@),
        ("de"@, "whois.denic.de"@),
        ("fr"@, "whois.afnic.fr"@),
        ("it"@, "whois.nic.it"@),
        ("es"@, "whois.nic.es"@),
        ("nl"@, "whois.domain-registry.nl"@),
        ("be"@, "whois.dns.be"@),
        ("ch"@, "whois.nic.ch"@),
        ("at"@, "whois.nic.at"@),
        ("se"@, "whois.iis.se"@),
        ("no"@, "whois.norid.no"@),
        ("dk"@, "whois.dk-hostmaster.dk"@),
        ("fi"@, "whois.fi"@),
        ("pl"@, "whois.dns.pl"@),
        ("cz"@, "whois.nic.cz"@),
        ("sk"@, "whois.sk-nic.sk"@),
        ("hu"@, "whois.nic.hu"@),
        ("ro"@, "whois.rotld.ro"@),
        ("bg"@, "whois.register.bg"@),
        ("hr"@, "whois.dns.hr"@),
        ("si"@, "whois.arnes.si"@),
        ("lt"@, "whois.domreg.lt"@),
        ("lv"@, "whois.nic.lv"@),
        ("ee"@, "whois.tld.ee"@),
        ("jp"@, "whois.jprs.jp"@),
        ("co.jp"@, "whois.jprs.jp"@),
        ("kr"@, "whois.kr"@),
        ("cn"@, "whois.cnnic.cn"@),
        ("com.cn"@, "whois.cnnic.cn"@),
        ("hk"@, "whois.hkirc.hk"@),
        ("tw"@, "whois.twnic.net.tw"@),
        ("sg"@, "whois.sgnic.sg"@),
        ("my"@, "whois.mynic.my"@),
        ("th"@, "whois.thnic.co.th"@),
        ("id"@, "whois.id"@),
        ("ph"@, "whois.dot.ph"@),
        ("vn"@, "whois.vnnic.vn"@),
        ("in"@, "whois.registry.in"@),
        ("co.in"@, "whois.registry.in"@),
        ("au"@, "whois.auda.org.au"@),
        ("com.au"@, "whois.auda.org.au"@),
        ("nz"@, "whois.srs.net.nz"@),
        ("co.nz"@, "whois.srs.net.nz"@),
        ("ca"@, "whois.cira.ca"@),
        ("us"@, "whois.nic.us"@),
        ("mx"@, "whois.mx"@),
        ("br"@, "whois.registro.br"@),
        ("com.br"@, "whois.registro.br"@),
        ("ar"@, "whois.nic.ar"@),
        ("cl"@, "whois.nic.cl"@),
        ("co"@, "whois.nic.co"@),
        ("pe"@, "kero.yachay.pe"@),
        ("uy"@, "whois.nic.org.uy"@),
        ("ve"@, "whois.nic.ve"@),
        ("ru"@, "whois.tcinet.ru"@),
        ("su"@, "whois.tcinet.ru"@),
        ("ua"@, "whois.ua"@),
        ("by"@, "whois.cctld.by"@),
        ("kz"@, "whois.nic.kz"@),
        ("il"@, "whois.isoc.org.il"@),
        ("tr"@, "whois.nic.tr"@),
        ("ae"@, "whois.aeda.net.ae"@),
        ("sa"@, "whois.nic.net.sa"@),
        ("za"@, "whois.registry.net.za"@),
        ("co.za"@, "whois.registry.net.za"@),
        ("eg"@, "whois.ripe.net"@),
    ]
}

/// The RDAP servers that are known without asking: a small set checked by hand.
pub open spec fn known_rdap_servers() -> Seq<(Seq<char>, Seq<char>)> {
    seq![
        ("com"@, "https://rdap.verisign.com/com/v1/"@),
        ("net"@, "https://rdap.verisign.com/net/v1/"@),
        ("org"@, "https://rdap.publicinterestregistry.org/rdap/"@),
        ("uk"@, "https://rdap.nominet.uk/uk/"@),
        ("fr"@, "https://rdap.nic.fr/"@),
        ("nl"@, "https://rdap.sidn.nl/"@),
    ]
}

/// The views of the pairs in `v`, in order.
pub open spec fn pair_views(v: Seq<(&'static str, &'static str)>) -> Seq<(Seq<char>, Seq<char>)> {
    Seq::new(v.len(), |i: int| (v[i].0@, v[i].1@))
}

impl ServerTable {
    /// The table that holds each of `pairs`: a later pair of a domain replaces an
    /// earlier one.
    pub fn from_pairs(pairs: &Vec<(&'static str, &'static str)>) -> (table: ServerTable)
        ensures
            table@ == mapping_of_pairs(pair_views(pairs@)),
    {
        let mut table = ServerTable::new();
        let ghost all = pair_views(pairs@);
        let mut i: usize = 0;
        proof {
            assert(all.take(0) =~= Seq::<(Seq<char>, Seq<char>)>::empty());
        }
        while i < pairs.len()
            invariant
                i <= pairs.len(),
                all == pair_views(pairs@),
                table@ == mapping_of_pairs(all.take(i as int)),
            decreases pairs.len() - i,
        {
            proof {
                assert(all.take(i + 1).drop_last() =~= all.take(i as int));
                assert(all.take(i + 1).last() == (pairs@[i as int].0@, pairs@[i as int].1@));
            }
            table.insert(pairs[i].0, pairs[i].1);
            i += 1;
        }
        proof {
            assert(all.take(all.len() as int) =~= all);
        }
        table
    }
}

fn hardcoded_pairs() -> (pairs: Vec<(&'static str, &'static str)>)
    ensures
        pair_views(pairs@) == hardcoded_tld_servers(),
{
    let pairs = vec![
        ("com", "whois.verisign-grs.com"),
        ("net", "whois.verisign-grs.com"),
        ("org", "whois.pir.org"),
        ("info", "whois.afilias.net"),
        ("biz", "whois.neulevel.biz"),
        ("name", "whois.nic.name"),
        ("pro", "whois.registrypro.pro"),
        ("xyz", "whois.nic.xyz"),
        ("top", "whois.nic.top"),
        ("shop", "whois.nic.shop"),
        ("online", "whois.nic.online"),
        ("store", "whois.nic.store"),
        ("site", "whois.nic.site"),
        ("app", "whois.nic.google"),
        ("dev", "whois.nic.google"),
        ("tech", "whois.nic.tech"),
        ("blog", "whois.nic.blog"),
        ("club", "whois.nic.club"),
        ("live", "whois.nic.live"),
        ("fun", "whois.nic.fun"),
        ("vip", "whois.nic.vip"),
        ("click", "whois.uniregistry.net"),
        ("uk", "whois.nic.uk"),
        ("co.uk", "whois.nic.uk"),
        ("org.uk", "whois.nic.uk"),
        ("me.uk", "whois.nic.uk"),
        ("de", "whois.denic.de"),
        ("fr", "whois.afnic.fr"),
        ("it", "whois.nic.it"),
        ("es", "whois.nic.es"),
        ("nl", "whois.domain-registry.nl"),
        ("be", "whois.dns.be"),
        ("ch", "whois.nic.ch"),
        ("at", "whois.nic.at"),
        ("se", "whois.iis.se"),
        ("no", "whois.norid.no"),
        ("dk", "whois.dk-hostmaster.dk"),
        ("fi", "whois.fi"),
        ("pl", "whois.dns.pl"),
        ("cz", "whois.nic.cz"),
        ("sk", "whois.sk-nic.sk"),
        ("hu", "whois.nic.hu"),
        ("ro", "whois.rotld.ro"),
        ("bg", "whois.register.bg"),
        ("hr", "whois.dns.hr"),
        ("si", "whois.arnes.si"),
        ("lt", "whois.domreg.lt"),
        ("lv", "whois.nic.lv"),
        ("ee", "whois.tld.ee"),
        ("jp", "whois.jprs.jp"),
        ("co.jp", "whois.jprs.jp"),
        ("kr", "whois.kr"),
        ("cn", "whois.cnnic.cn"),
        ("com.cn", "whois.cnnic.cn"),
        ("hk", "whois.hkirc.hk"),
        ("tw", "whois.twnic.net.tw"),
        ("sg", "whois.sgnic.sg"),
        ("my", "whois.mynic.my"),
        ("th", "whois.thnic.co.th"),
        ("id", "whois.id"),
        ("ph", "whois.dot.ph"),
        ("vn", "whois.vnnic.vn"),
        ("in", "whois.registry.in"),
        ("co.in", "whois.registry.in"),
        ("au", "whois.auda.org.au"),
        ("com.au", "whois.auda.org.au"),
        ("nz", "whois.srs.net.nz"),
        ("co.nz", "whois.srs.net.nz"),
        ("ca", "whois.cira.ca"),
        ("us", "whois.nic.us"),
        ("mx", "whois.mx"),
        ("br", "whois.registro.br"),
        ("com.br", "whois.registro.br"),
        ("ar", "whois.nic.ar"),
        ("cl", "whois.nic.cl"),
        ("co", "whois.nic.co"),
        ("pe", "kero.yachay.pe"),
        ("uy", "whois.nic.org.uy"),
        ("ve", "whois.nic.ve"),
        ("ru", "whois.tcinet.ru"),
        ("su", "whois.tcinet.ru"),
        ("ua", "whois.ua"),
        ("by", "whois.cctld.by"),
        ("kz", "whois.nic.kz"),
        ("il", "whois.isoc.org.il"),
        ("tr", "whois.nic.tr"),
        ("ae", "whois.aeda.net.ae"),
        ("sa", "whois.nic.net.sa"),
        ("za", "whois.registry.net.za"),
        ("co.za", "whois.registry.net.za"),
        ("eg", "whois.ripe.net"),
    ];
    proof {
        assert(pair_views(pairs@) =~= hardcoded_tld_servers());
    }
    pairs
}

fn known_rdap_pairs() -> (pairs: Vec<(&'static str, &'static str)>)
    ensures
        pair_views(pairs@) == known_rdap_servers(),
{
    let pairs = vec![
        ("com", "https://rdap.verisign.com/com/v1/"),
        ("net", "https://rdap.verisign.com/net/v1/"),
        ("org", "https://rdap.publicinterestregistry.org/rdap/"),
        ("uk", "https://rdap.nominet.uk/uk/"),
        ("fr", "https://rdap.nic.fr/"),
        ("nl", "https://rdap.sidn.nl/"),
    ];
    proof {
        assert(pair_views(pairs@) =~= known_rdap_servers());
    }
    pairs
}

/// The table of the WHOIS servers that are known without asking.
pub fn hardcoded_whois_table() -> (table: ServerTable)
    ensures
        table@ == mapping_of_pairs(hardcoded_tld_servers()),
{
    ServerTable::from_pairs(&hardcoded_pairs())
}

/// The table of the RDAP servers that are known without asking.
pub fn known_rdap_table() -> (table: ServerTable)
    ensures
        table@ == mapping_of_pairs(known_rdap_servers()),
{
    ServerTable::from_pairs(&known_rdap_pairs())
}

} // verus!
