use crate::directory::{is_first_step, lookup_name, LookupStep, ServerDirectory};
use crate::domain::lookup_domain;
use crate::errors::WhoisError;
use crate::suffix::{extract_tld, list_rules, tld_of};
use crate::tld_mappings::{hardcoded_tld_servers, hardcoded_whois_table, mapping_of_pairs};
use publicsuffix::List;
use crate::record::{opt_view, ParsedWhoisData};
use crate::text::{
    before_first, begins_with, chars_of, contains, find_char, has_text, head_before_first, is_text,
    joined, lines, lowercase, lowered, position_of, slice_of, split_lines, split_once, starts_with,
    string_of, string_views, trim, trimmed, views,
};
use vstd::prelude::*;
use vstd::utf8::{decode_utf8, encode_utf8, valid_utf8};

verus! {

/// The port of the WHOIS protocol.
pub const WHOIS_PORT: u16 = 43;

/// What a completed WHOIS lookup hands back.
#[derive(Debug, Clone)]
pub struct WhoisResult {
    /// The server that gave the final reply.
    pub server: String,
    /// The text of the reply, as it came.
    pub raw_data: String,
    pub parsed_data: Option<ParsedWhoisData>,
    /// The trace of the parse: for debugging only.
    pub parsing_analysis: Vec<String>,
}

/// The line that asks a server about `query`.
pub open spec fn query_line_of(query: Seq<char>) -> Seq<char> {
    query + "\r\n"@
}

/// The line that asks a server about `query`: the query and a line ending.
pub fn query_line(query: &str) -> (line: String)
    ensures
        line@ == query_line_of(query@),
{
    joined(query, "\r\n")
}

/// A key, trimmed and in lower case, that names the server to ask next.
pub open spec fn is_referral_key(key: Seq<char>) -> bool {
    (contains(key, "whois"@) && contains(key, "server"@)) || key == "refer"@
}

/// The server that a line refers to: the value of the line, trimmed, where the
/// line has a colon and its key names a server.
pub open spec fn referral_in_line(raw: Seq<char>) -> Option<Seq<char>> {
    match split_once(trim(raw), ':') {
        Some((k, v)) => if is_referral_key(lowercase(trim(k))) {
            Some(trim(v))
        } else {
            None
        },
        None => None,
    }
}

/// The server that the first of `all` to refer to one names.
pub open spec fn first_referral(all: Seq<Seq<char>>) -> Option<Seq<char>>
    decreases all.len(),
{
    if all.len() == 0 {
        None
    } else {
        match referral_in_line(all[0]) {
            Some(server) => Some(server),
            None => first_referral(all.drop_first()),
        }
    }
}

/// The server that a reply refers to, where it refers to one.
pub open spec fn referral_of(data: Seq<char>) -> Option<Seq<char>> {
    first_referral(lines(data))
}

/// The text between the first colon of `line` and its second, trimmed: to the end
/// of the line where there is no second colon, and nothing where there is none.
pub open spec fn after_colon(line: Seq<char>) -> Option<Seq<char>> {
    let k = find_char(line, ':');
    if k < line.len() {
        Some(trim(before_first(line.skip(k as int + 1), ':')))
    } else {
        None
    }
}

/// The server that a line of a root server's reply names: the line begins with
/// `whois:` or `refer:`, or holds `whois server:`, in any mix of cases.
pub open spec fn server_in_line(line: Seq<char>) -> Option<Seq<char>> {
    let low = lowercase(line);
    if starts_with(low, "whois:"@) || starts_with(low, "refer:"@) || contains(
        low,
        "whois server:"@,
    ) {
        after_colon(line)
    } else {
        None
    }
}

/// The server that the first of `all` to name one names, each line trimmed.
pub open spec fn first_server(all: Seq<Seq<char>>) -> Option<Seq<char>>
    decreases all.len(),
{
    if all.len() == 0 {
        None
    } else {
        match server_in_line(trim(all[0])) {
            Some(server) => Some(server),
            None => first_server(all.drop_first()),
        }
    }
}

/// The server that a root server's reply names for a top-level domain.
pub open spec fn root_referral_of(response: Seq<char>) -> Option<Seq<char>> {
    match first_server(lines(response)) {
        Some(server) => Some(server),
        None => referral_of(response),
    }
}

/// A top-level domain of two bytes: a country code.
pub open spec fn is_country_code(tld: Seq<char>) -> bool {
    encode_utf8(tld).len() == 2
}

/// The host names under which the WHOIS server of `tld` is looked for, the likeliest
/// first.
pub open spec fn whois_patterns_of(tld: Seq<char>) -> Seq<Seq<char>> {
    if is_country_code(tld) {
        seq![
            "whois.nic."@ + tld,
            "whois."@ + tld,
            "whois.domain."@ + tld,
            "whois.registry."@ + tld,
            "whois.dns."@ + tld,
        ]
    } else {
        seq!["whois.nic."@ + tld, "whois."@ + tld, "whois.registry."@ + tld]
    }
}

fn line_referral(raw: &Vec<char>) -> (r: Option<String>)
    ensures
        opt_view(r) == referral_in_line(raw@),
{
    let line = trimmed(raw);
    let k = position_of(&line, ':');
    if k < line.len() {
        let key = lowered(&trimmed(&slice_of(&line, 0, k)));
        proof {
            assert(line@.take(k as int) =~= line@.subrange(0, k as int));
            assert(line@.skip(k + 1) =~= line@.subrange(k + 1, line@.len() as int));
        }
        if (has_text(&key, "whois") && has_text(&key, "server")) || is_text(&key, "refer") {
            let value = trimmed(&slice_of(&line, k + 1, line.len()));
            return Some(string_of(&value));
        }
    }
    None
}

fn referral_in(all: &Vec<Vec<char>>) -> (r: Option<String>)
    ensures
        opt_view(r) == first_referral(views(all@)),
{
    let ghost every = views(all@);
    let mut i: usize = 0;
    proof {
        assert(every.skip(0) =~= every);
    }
    while i < all.len()
        invariant
            i <= all.len(),
            every == views(all@),
            first_referral(every) == first_referral(every.skip(i as int)),
        decreases all.len() - i,
    {
        proof {
            assert(every.skip(i as int)[0] == all@[i as int]@);
            assert(every.skip(i as int).drop_first() =~= every.skip(i + 1));
        }
        let hit = line_referral(&all[i]);
        if hit.is_some() {
            return hit;
        }
        i += 1;
    }
    None
}

/// Looks in a reply for the server that it refers to.
pub fn extract_whois_server(data: &str) -> (r: Option<String>)
    ensures
        opt_view(r) == referral_of(data@),
{
    let all = split_lines(&chars_of(data));
    referral_in(&all)
}

fn server_after_colon(line: &Vec<char>) -> (r: Option<String>)
    ensures
        opt_view(r) == after_colon(line@),
{
    let k = position_of(line, ':');
    if k < line.len() {
        let rest = slice_of(line, k + 1, line.len());
        proof {
            assert(line@.skip(k + 1) =~= line@.subrange(k + 1, line@.len() as int));
        }
        let piece = head_before_first(&rest, ':');
        Some(string_of(&trimmed(&piece)))
    } else {
        None
    }
}

/// The text between the first colon of `line` and its second, trimmed.
pub fn extract_server_after_colon(line: &str) -> (r: Option<String>)
    ensures
        opt_view(r) == after_colon(line@),
{
    server_after_colon(&chars_of(line))
}

fn server_from_line(line: &Vec<char>) -> (r: Option<String>)
    ensures
        opt_view(r) == server_in_line(line@),
{
    let low = lowered(line);
    if begins_with(&low, "whois:") || begins_with(&low, "refer:") || has_text(
        &low,
        "whois server:",
    ) {
        server_after_colon(line)
    } else {
        None
    }
}

/// Looks in a line of a root server's reply for the server that it names.
pub fn extract_server_from_line(line: &str) -> (r: Option<String>)
    ensures
        opt_view(r) == server_in_line(line@),
{
    server_from_line(&chars_of(line))
}

/// Looks in a root server's reply for the server of the top-level domain asked
/// about.
pub fn parse_root_server_response(response: &str) -> (r: Option<String>)
    ensures
        opt_view(r) == root_referral_of(response@),
{
    let all = split_lines(&chars_of(response));
    let ghost every = views(all@);
    let mut i: usize = 0;
    proof {
        assert(every.skip(0) =~= every);
    }
    while i < all.len()
        invariant
            i <= all.len(),
            every == views(all@),
            every == lines(response@),
            first_server(every) == first_server(every.skip(i as int)),
        decreases all.len() - i,
    {
        proof {
            assert(every.skip(i as int)[0] == all@[i as int]@);
            assert(every.skip(i as int).drop_first() =~= every.skip(i + 1));
        }
        let hit = server_from_line(&trimmed(&all[i]));
        if hit.is_some() {
            return hit;
        }
        i += 1;
    }
    referral_in(&all)
}

/// The host names under which the WHOIS server of `tld` is looked for, in the
/// order in which they are tried.
pub fn generate_whois_patterns(tld: &str) -> (patterns: Vec<String>)
    ensures
        string_views(patterns@) == whois_patterns_of(tld@),
{
    let mut patterns: Vec<String> = Vec::new();
    patterns.push(joined("whois.nic.", tld));
    if tld.as_bytes().len() == 2 {
        patterns.push(joined("whois.", tld));
        patterns.push(joined("whois.domain.", tld));
        patterns.push(joined("whois.registry.", tld));
        patterns.push(joined("whois.dns.", tld));
    } else {
        patterns.push(joined("whois.", tld));
        patterns.push(joined("whois.registry.", tld));
    }
    proof {
        assert(string_views(patterns@) =~= whois_patterns_of(tld@));
    }
    patterns
}

/// The servers that know the WHOIS server of every top-level domain.
pub open spec fn root_servers() -> Seq<Seq<char>> {
    seq!["whois.iana.org"@]
}

/// The root servers, in the order in which they are asked.
pub fn get_root_servers() -> (servers: Vec<String>)
    ensures
        string_views(servers@) == root_servers(),
{
    let mut servers: Vec<String> = Vec::new();
    servers.push("whois.iana.org".to_owned());
    proof {
        assert(string_views(servers@) =~= root_servers());
    }
    servers
}

/// Where a chain of referrals stands.
pub struct Chain {
    /// The server that gave the reply held.
    pub server: Seq<char>,
    /// The reply held.
    pub data: Seq<char>,
    /// The referrals followed so far.
    pub hops: nat,
    /// The most referrals that may be followed.
    pub limit: nat,
    /// No further server is asked.
    pub closed: bool,
}

/// The server that is asked next: the one that the reply held refers to, where it
/// is another server than the one that gave the reply and a referral may still be
/// followed.
pub open spec fn next_hop(c: Chain) -> Option<Seq<char>> {
    if c.closed || c.hops >= c.limit {
        None
    } else {
        match referral_of(c.data) {
            Some(server) => if server != c.server {
                Some(server)
            } else {
                None
            },
            None => None,
        }
    }
}

/// The chain after the server asked has answered with `reply`, or has failed to
/// answer: `None`. A reply takes the place of the one held; a failure ends the
/// chain with what is held. Where no server was to be asked, the chain is ended.
pub open spec fn after_reply(c: Chain, reply: Option<Seq<char>>) -> Chain {
    match (next_hop(c), reply) {
        (Some(server), Some(data)) => Chain { server, data, hops: c.hops + 1, ..c },
        _ => Chain { closed: true, ..c },
    }
}

/// The chain after each of `replies` came in, in order.
pub open spec fn after_replies(c: Chain, replies: Seq<Option<Seq<char>>>) -> Chain
    decreases replies.len(),
{
    if replies.len() == 0 {
        c
    } else {
        after_replies(after_reply(c, replies[0]), replies.drop_first())
    }
}

/// The number of servers asked while `replies` came in.
pub open spec fn queries_made(c: Chain, replies: Seq<Option<Seq<char>>>) -> nat
    decreases replies.len(),
{
    if replies.len() == 0 {
        0
    } else {
        let asked: nat = if next_hop(c) is Some {
            1
        } else {
            0
        };
        asked + queries_made(after_reply(c, replies[0]), replies.drop_first())
    }
}

/// The following of referrals from a first reply: the state between two queries.
pub struct ReferralChain {
    server: String,
    data: String,
    hops: usize,
    max_referrals: usize,
    closed: bool,
}

impl View for ReferralChain {
    type V = Chain;

    closed spec fn view(&self) -> Chain {
        Chain {
            server: self.server@,
            data: self.data@,
            hops: self.hops as nat,
            limit: self.max_referrals as nat,
            closed: self.closed,
        }
    }
}

impl ReferralChain {
    #[verifier::type_invariant]
    spec fn within_limit(self) -> bool {
        self.hops <= self.max_referrals
    }

    /// The chain that begins with the reply `initial_data` of `initial_server`.
    pub fn start(initial_server: &str, initial_data: &str, max_referrals: usize) -> (c:
        ReferralChain)
        ensures
            c@ == (Chain {
                server: initial_server@,
                data: initial_data@,
                hops: 0,
                limit: max_referrals as nat,
                closed: false,
            }),
    {
        ReferralChain {
            server: initial_server.to_owned(),
            data: initial_data.to_owned(),
            hops: 0,
            max_referrals,
            closed: false,
        }
    }

    /// The server to ask next, or `None` where the chain has come to its end.
    pub fn next_server(&self) -> (r: Option<String>)
        ensures
            opt_view(r) == next_hop(self@),
            self@.hops <= self@.limit,
    {
        proof {
            use_type_invariant(self);
        }
        if self.closed || self.hops >= self.max_referrals {
            return None;
        }
        match extract_whois_server(self.data.as_str()) {
            Some(server) => if server != self.server {
                Some(server)
            } else {
                None
            },
            None => None,
        }
    }

    /// Takes in what the server asked has answered: `None` where it failed to.
    pub fn on_reply(&mut self, reply: Option<String>)
        ensures
            final(self)@ == after_reply(old(self)@, opt_view(reply)),
    {
        match (self.next_server(), reply) {
            (Some(server), Some(data)) => {
                self.server = server;
                self.data = data;
                self.hops = self.hops + 1;
            },
            _ => {
                self.closed = true;
            },
        }
    }

    /// The number of referrals followed.
    pub fn referral_count(&self) -> (n: usize)
        ensures
            n == self@.hops,
            n <= self@.limit,
    {
        proof {
            use_type_invariant(self);
        }
        self.hops
    }

    /// The server that gave the reply held, and that reply.
    pub fn finish(self) -> (r: (String, String))
        ensures
            r.0@ == self@.server,
            r.1@ == self@.data,
    {
        (self.server, self.data)
    }
}

/// However the servers answer, and whichever servers they refer to, no more
/// servers are asked than referrals may be followed.
pub proof fn lemma_referrals_are_bounded(c: Chain, replies: Seq<Option<Seq<char>>>)
    requires
        c.hops <= c.limit,
    ensures
        queries_made(c, replies) <= c.limit - c.hops,
        after_replies(c, replies).hops <= c.limit,
        after_replies(c, replies).limit == c.limit,
    decreases replies.len(),
{
    if replies.len() > 0 {
        let next = after_reply(c, replies[0]);
        lemma_referrals_are_bounded(next, replies.drop_first());
        if next.closed {
            lemma_closed_chain_asks_nothing(next, replies.drop_first());
        }
    }
}

/// A chain that has ended asks no server and stays as it is.
pub proof fn lemma_closed_chain_asks_nothing(c: Chain, replies: Seq<Option<Seq<char>>>)
    requires
        c.closed,
    ensures
        queries_made(c, replies) == 0,
        after_replies(c, replies) == c,
    decreases replies.len(),
{
    if replies.len() > 0 {
        assert(after_reply(c, replies[0]) == c);
        lemma_closed_chain_asks_nothing(c, replies.drop_first());
    }
}

/// What a read from the connection has brought.
pub enum ReadStep {
    /// The peer has more to send: read again.
    Continue,
    /// The reply is complete or was given up: the connection is not read again.
    Done(Result<String, WhoisError>),
}

/// The text that the bytes of a complete reply stand for.
pub open spec fn is_decoded(r: Result<String, WhoisError>, bytes: Seq<u8>) -> bool {
    if valid_utf8(bytes) {
        r matches Ok(s) && s@ == decode_utf8(bytes)
    } else {
        r matches Err(WhoisError::InvalidUtf8)
    }
}

/// `step` is what follows from a read that brought `chunk`, where `held` bytes were
/// read before and a reply may have `limit` bytes: an empty chunk is the end of
/// the reply, and a chunk that takes the reply beyond `limit` ends the reading.
pub open spec fn is_read_step(step: ReadStep, held: Seq<u8>, chunk: Seq<u8>, limit: nat) -> bool {
    if chunk.len() == 0 {
        step matches ReadStep::Done(r) && is_decoded(r, held)
    } else if held.len() + chunk.len() > limit {
        step matches ReadStep::Done(Err(WhoisError::ResponseTooLarge))
    } else {
        step is Continue
    }
}

/// The bytes of a reply as they come in, up to a limit.
pub struct ResponseReader {
    response: Vec<u8>,
    max_response_size: usize,
}

impl ResponseReader {
    /// The bytes read so far.
    pub closed spec fn bytes(&self) -> Seq<u8> {
        self.response@
    }

    /// The most bytes that a reply may have.
    pub closed spec fn limit(&self) -> nat {
        self.max_response_size as nat
    }

    /// A reader that has read nothing.
    pub fn new(max_response_size: usize) -> (r: ResponseReader)
        ensures
            r.bytes() == Seq::<u8>::empty(),
            r.limit() == max_response_size,
    {
        ResponseReader { response: Vec::new(), max_response_size }
    }

    /// The number of bytes read so far.
    pub fn len(&self) -> (n: usize)
        ensures
            n == self.bytes().len(),
    {
        self.response.len()
    }

    /// Takes in the bytes that one read has brought: none at the end of the reply.
    pub fn on_data(&mut self, chunk: &[u8]) -> (step: ReadStep)
        ensures
            final(self).limit() == old(self).limit(),
            final(self).bytes() == old(self).bytes() + chunk@,
            is_read_step(step, old(self).bytes(), chunk@, old(self).limit()),
    {
        if chunk.len() == 0 {
            proof {
                assert(self.response@ + chunk@ =~= self.response@);
            }
            return ReadStep::Done(decode_response(&self.response));
        }
        self.response.extend_from_slice(chunk);
        if self.response.len() > self.max_response_size {
            ReadStep::Done(Err(WhoisError::ResponseTooLarge))
        } else {
            ReadStep::Continue
        }
    }
}

/// The text of a complete reply: its bytes must be UTF-8.
pub fn decode_response(bytes: &Vec<u8>) -> (r: Result<String, WhoisError>)
    ensures
        is_decoded(r, bytes@),
{
    match core::str::from_utf8(bytes.as_slice()) {
        Ok(text) => Ok(text.to_owned()),
        Err(_) => Err(WhoisError::InvalidUtf8),
    }
}

/// The top-level domain under which the servers of `domain` are looked up: `None`
/// where the domain is refused.
pub open spec fn lookup_tld(rules: Map<Seq<u8>, bool>, domain: Seq<char>) -> Option<Seq<char>> {
    match lookup_name(domain) {
        Some(name) => tld_of(rules, name),
        None => None,
    }
}

/// The WHOIS side of the engine: which server answers for which top-level domain.
pub struct WhoisService {
    directory: ServerDirectory,
}

impl WhoisService {
    /// The static table.
    pub closed spec fn fixed(&self) -> Map<Seq<char>, Seq<char>> {
        self.directory.fixed()
    }

    /// The servers discovered so far.
    pub closed spec fn discovered(&self) -> Map<Seq<char>, Seq<char>> {
        self.directory.discovered()
    }

    /// The service with the static table of the common top-level domains and
    /// nothing discovered.
    pub fn new() -> (s: WhoisService)
        ensures
            s.fixed() == mapping_of_pairs(hardcoded_tld_servers()),
            s.discovered() == Map::<Seq<char>, Seq<char>>::empty(),
    {
        WhoisService { directory: ServerDirectory::new(hardcoded_whois_table()) }
    }

    /// Begins a lookup: the domain is checked, its top-level domain is taken from
    /// the suffix list, and the server is looked for among those known. Nothing is
    /// changed, and a domain that is refused asks for nothing.
    pub fn lookup(&self, psl: &List, domain: &str) -> (r: Result<LookupStep, WhoisError>)
        ensures
            is_first_step(
                r,
                self.discovered(),
                self.fixed(),
                domain@,
                lookup_tld(list_rules(*psl), domain@),
            ),
            lookup_name(domain@) is None ==> r matches Err(WhoisError::InvalidDomain(_)),
    {
        match lookup_domain(domain) {
            Ok(name) => match extract_tld(psl, name.as_str()) {
                Ok(tld) => Ok(self.directory.plan(name, tld)),
                Err(e) => Err(e),
            },
            Err(e) => Err(e),
        }
    }

    /// Ends the discovery of the server of `tld`: a server found is remembered
    /// and handed out, and none is an unsupported top-level domain.
    pub fn conclude(&mut self, tld: &str, found: Option<String>) -> (r: Result<String, WhoisError>)
        ensures
            final(self).fixed() == old(self).fixed(),
            match found {
                Some(server) => r matches Ok(s) && s@ == server@ && final(self).discovered()
                    == old(self).discovered().insert(tld@, server@),
                None => final(self).discovered() == old(self).discovered() && (r matches Err(
                    WhoisError::UnsupportedTld(m),
                ) && m@ == tld@),
            },
            forall|k: Seq<char>|
                old(self).discovered().contains_key(k) ==> final(self).discovered().contains_key(k),
    {
        match found {
            Some(server) => {
                self.directory.record_discovery(tld, server.as_str());
                Ok(server)
            },
            None => Err(WhoisError::UnsupportedTld(tld.to_owned())),
        }
    }
}

} // verus!
