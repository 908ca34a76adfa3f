use crate::record::opt_view;
use crate::text::string_views;
use crate::whois::{
    generate_whois_patterns, get_root_servers, parse_root_server_response, root_referral_of,
    root_servers, whois_patterns_of,
};
use vstd::prelude::*;

verus! {

/// The longest that a probe of a candidate server may take, in seconds.
pub const MAX_PROBE_SECONDS: u64 = 10;

/// The time that a probe of a candidate server may take: the timeout configured
/// for discovery, and ten seconds at most.
pub fn probe_timeout_seconds(discovery_timeout_seconds: u64) -> (t: u64)
    ensures
        t == if discovery_timeout_seconds <= MAX_PROBE_SECONDS {
            discovery_timeout_seconds
        } else {
            MAX_PROBE_SECONDS
        },
{
    if discovery_timeout_seconds <= MAX_PROBE_SECONDS {
        discovery_timeout_seconds
    } else {
        MAX_PROBE_SECONDS
    }
}

/// Where the discovery of a WHOIS server stands.
pub enum Stage {
    /// The root server of this position is asked for a referral.
    AskRoot(nat),
    /// The server that a root server referred to is probed.
    ProbeReferral(Seq<char>),
    /// The candidate host name of this position is probed.
    ProbePattern(nat),
    /// A server was reached: it is the one.
    Found(Seq<char>),
    /// Every means was tried without success.
    Failed,
}

/// What the state of a discovery holds.
pub struct Search {
    pub tld: Seq<char>,
    pub roots: Seq<Seq<char>>,
    pub patterns: Seq<Seq<char>>,
    pub stage: Stage,
}

/// What has to be done next for a discovery.
pub enum Step {
    /// Send `query` to the root server `server` and hand back its reply.
    QueryRoot { server: Seq<char>, query: Seq<char> },
    /// Try to connect to `server` and tell whether it could be reached.
    Probe { server: Seq<char> },
    /// Nothing: the discovery has ended with this server, or with none.
    Finish { found: Option<Seq<char>> },
}

/// What came of the step that was asked for.
pub enum Outcome {
    /// The reply of a root server: `None` where the query failed.
    RootReply(Option<Seq<char>>),
    /// Whether the server probed could be reached.
    Probed(bool),
}

/// The stage at which the candidate host names are probed, from position `j` on.
pub open spec fn patterns_from(s: Search, j: nat) -> Stage {
    if j < s.patterns.len() {
        Stage::ProbePattern(j)
    } else {
        Stage::Failed
    }
}

/// The stage at which the root servers are asked, from position `i` on.
pub open spec fn roots_from(s: Search, i: nat) -> Stage {
    if i < s.roots.len() {
        Stage::AskRoot(i)
    } else {
        patterns_from(s, 0)
    }
}

/// The step that a discovery asks for.
pub open spec fn step_of(s: Search) -> Step {
    match s.stage {
        Stage::AskRoot(i) => Step::QueryRoot { server: s.roots[i as int], query: s.tld },
        Stage::ProbeReferral(server) => Step::Probe { server },
        Stage::ProbePattern(j) => Step::Probe { server: s.patterns[j as int] },
        Stage::Found(server) => Step::Finish { found: Some(server) },
        Stage::Failed => Step::Finish { found: None },
    }
}

/// The stage that follows on `outcome`. A root server's referral is probed before
/// it is accepted; the candidate host names are probed in order once the root
/// servers gave nothing that could be reached; the first server reached is
/// accepted. An outcome that answers no step asked for changes nothing.
pub open spec fn next_stage(s: Search, outcome: Outcome) -> Stage {
    match (s.stage, outcome) {
        (Stage::AskRoot(i), Outcome::RootReply(Some(reply))) => match root_referral_of(reply) {
            Some(server) => Stage::ProbeReferral(server),
            None => roots_from(s, i + 1),
        },
        (Stage::AskRoot(i), Outcome::RootReply(None)) => roots_from(s, i + 1),
        (Stage::ProbeReferral(server), Outcome::Probed(reached)) => if reached {
            Stage::Found(server)
        } else {
            patterns_from(s, 0)
        },
        (Stage::ProbePattern(j), Outcome::Probed(reached)) => if reached {
            Stage::Found(s.patterns[j as int])
        } else {
            patterns_from(s, j + 1)
        },
        (stage, _) => stage,
    }
}

/// The most steps that a discovery has before it ends.
pub open spec fn steps_left(s: Search) -> nat {
    match s.stage {
        Stage::AskRoot(i) => (s.roots.len() - i + 1 + s.patterns.len()) as nat,
        Stage::ProbeReferral(_) => (1 + s.patterns.len()) as nat,
        Stage::ProbePattern(j) => (s.patterns.len() - j) as nat,
        Stage::Found(_) => 0,
        Stage::Failed => 0,
    }
}

/// The positions that a stage holds lie within the lists.
pub open spec fn in_range(s: Search) -> bool {
    match s.stage {
        Stage::AskRoot(i) => i < s.roots.len(),
        Stage::ProbePattern(j) => j < s.patterns.len(),
        _ => true,
    }
}

/// `outcome` answers the step that `s` asks for.
pub open spec fn answers(s: Search, outcome: Outcome) -> bool {
    match (step_of(s), outcome) {
        (Step::QueryRoot { .. }, Outcome::RootReply(_)) => true,
        (Step::Probe { .. }, Outcome::Probed(_)) => true,
        _ => false,
    }
}

enum Progress {
    AskRoot(usize),
    ProbeReferral(String),
    ProbePattern(usize),
    Found(String),
    Failed,
}

/// The discovery of the WHOIS server of a top-level domain: the state between two
/// network operations.
pub struct Discovery {
    tld: String,
    roots: Vec<String>,
    patterns: Vec<String>,
    progress: Progress,
}

/// What has to be done next for a discovery.
#[derive(Debug, Clone)]
pub enum DiscoveryAction {
    /// Send `query` to the root server `server` and hand back its reply.
    QueryRoot { server: String, query: String },
    /// Try to connect to `server` and tell whether it could be reached.
    Probe { server: String },
    /// Nothing: the discovery has ended with this server, or with none.
    Finish { found: Option<String> },
}

/// What came of the action that was asked for.
#[derive(Debug, Clone)]
pub enum DiscoveryEvent {
    /// The reply of a root server: `None` where the query failed.
    RootReply(Option<String>),
    /// Whether the server probed could be reached.
    Probed(bool),
}

impl View for DiscoveryAction {
    type V = Step;

    open spec fn view(&self) -> Step {
        match *self {
            DiscoveryAction::QueryRoot { server, query } => Step::QueryRoot {
                server: server@,
                query: query@,
            },
            DiscoveryAction::Probe { server } => Step::Probe { server: server@ },
            DiscoveryAction::Finish { found } => Step::Finish { found: opt_view(found) },
        }
    }
}

impl View for DiscoveryEvent {
    type V = Outcome;

    open spec fn view(&self) -> Outcome {
        match *self {
            DiscoveryEvent::RootReply(reply) => Outcome::RootReply(opt_view(reply)),
            DiscoveryEvent::Probed(reached) => Outcome::Probed(reached),
        }
    }
}

impl View for Discovery {
    type V = Search;

    closed spec fn view(&self) -> Search {
        Search {
            tld: self.tld@,
            roots: string_views(self.roots@),
            patterns: string_views(self.patterns@),
            stage: match self.progress {
                Progress::AskRoot(i) => Stage::AskRoot(i as nat),
                Progress::ProbeReferral(server) => Stage::ProbeReferral(server@),
                Progress::ProbePattern(j) => Stage::ProbePattern(j as nat),
                Progress::Found(server) => Stage::Found(server@),
                Progress::Failed => Stage::Failed,
            },
        }
    }
}

impl Discovery {
    #[verifier::type_invariant]
    spec fn positions_in_range(self) -> bool {
        match self.progress {
            Progress::AskRoot(i) => i < self.roots@.len(),
            Progress::ProbePattern(j) => j < self.patterns@.len(),
            _ => true,
        }
    }

    fn from_roots(roots: &Vec<String>, patterns: &Vec<String>, i: usize) -> (p: Progress)
        ensures
            match p {
                Progress::AskRoot(k) => k == i && i < roots@.len(),
                Progress::ProbePattern(k) => k == 0 && i >= roots@.len() && 0 < patterns@.len(),
                Progress::Failed => i >= roots@.len() && patterns@.len() == 0,
                _ => false,
            },
    {
        if i < roots.len() {
            Progress::AskRoot(i)
        } else {
            Discovery::from_patterns(patterns, 0)
        }
    }

    fn from_patterns(patterns: &Vec<String>, j: usize) -> (p: Progress)
        ensures
            match p {
                Progress::ProbePattern(k) => k == j && j < patterns@.len(),
                Progress::Failed => j >= patterns@.len(),
                _ => false,
            },
    {
        if j < patterns.len() {
            Progress::ProbePattern(j)
        } else {
            Progress::Failed
        }
    }

    fn after_root(roots: &Vec<String>, patterns: &Vec<String>, i: usize) -> (p: Progress)
        requires
            i < roots@.len(),
        ensures
            match p {
                Progress::AskRoot(k) => k == i + 1 && i + 1 < roots@.len(),
                Progress::ProbePattern(k) => k == 0 && i + 1 >= roots@.len() && 0
                    < patterns@.len(),
                Progress::Failed => i + 1 >= roots@.len() && patterns@.len() == 0,
                _ => false,
            },
    {
        if i < roots.len() - 1 {
            Progress::AskRoot(i + 1)
        } else {
            Discovery::from_patterns(patterns, 0)
        }
    }

    fn after_pattern(patterns: &Vec<String>, j: usize) -> (p: Progress)
        requires
            j < patterns@.len(),
        ensures
            match p {
                Progress::ProbePattern(k) => k == j + 1 && j + 1 < patterns@.len(),
                Progress::Failed => j + 1 >= patterns@.len(),
                _ => false,
            },
    {
        if j < patterns.len() - 1 {
            Progress::ProbePattern(j + 1)
        } else {
            Progress::Failed
        }
    }

    /// The discovery of the server of `tld`, before anything was tried: the root
    /// servers are asked first.
    pub fn start(tld: &str) -> (d: Discovery)
        ensures
            d@.tld == tld@,
            d@.roots == root_servers(),
            d@.patterns == whois_patterns_of(tld@),
            d@.stage == roots_from(d@, 0),
            in_range(d@),
    {
        let roots = get_root_servers();
        let patterns = generate_whois_patterns(tld);
        let progress = Discovery::from_roots(&roots, &patterns, 0);
        Discovery { tld: tld.to_owned(), roots, patterns, progress }
    }

    /// What has to be done next.
    pub fn action(&self) -> (a: DiscoveryAction)
        ensures
            a@ == step_of(self@),
            in_range(self@),
    {
        proof {
            use_type_invariant(self);
        }
        match &self.progress {
            Progress::AskRoot(i) => DiscoveryAction::QueryRoot {
                server: self.roots[*i].clone(),
                query: self.tld.clone(),
            },
            Progress::ProbeReferral(server) => DiscoveryAction::Probe { server: server.clone() },
            Progress::ProbePattern(j) => DiscoveryAction::Probe {
                server: self.patterns[*j].clone(),
            },
            Progress::Found(server) => DiscoveryAction::Finish { found: Some(server.clone()) },
            Progress::Failed => DiscoveryAction::Finish { found: None },
        }
    }

    /// Takes in what came of the action asked for.
    pub fn advance(&mut self, event: &DiscoveryEvent)
        ensures
            final(self)@.tld == old(self)@.tld,
            final(self)@.roots == old(self)@.roots,
            final(self)@.patterns == old(self)@.patterns,
            final(self)@.stage == next_stage(old(self)@, event@),
            in_range(final(self)@),
    {
        proof {
            use_type_invariant(&*self);
        }
        let next: Option<Progress> = match (&self.progress, event) {
            (Progress::AskRoot(i), DiscoveryEvent::RootReply(Some(reply))) => {
                match parse_root_server_response(reply.as_str()) {
                    Some(server) => Some(Progress::ProbeReferral(server)),
                    None => Some(Discovery::after_root(&self.roots, &self.patterns, *i)),
                }
            },
            (Progress::AskRoot(i), DiscoveryEvent::RootReply(None)) => Some(
                Discovery::after_root(&self.roots, &self.patterns, *i),
            ),
            (Progress::ProbeReferral(server), DiscoveryEvent::Probed(reached)) => {
                if *reached {
                    Some(Progress::Found(server.clone()))
                } else {
                    Some(Discovery::from_patterns(&self.patterns, 0))
                }
            },
            (Progress::ProbePattern(j), DiscoveryEvent::Probed(reached)) => {
                if *reached {
                    Some(Progress::Found(self.patterns[*j].clone()))
                } else {
                    Some(Discovery::after_pattern(&self.patterns, *j))
                }
            },
            _ => None,
        };
        match next {
            Some(progress) => {
                self.progress = progress;
            },
            None => {},
        }
    }
}

/// Each outcome that answers the step asked for brings a discovery nearer to its
/// end: a discovery ends after as many steps as there are root servers and
/// candidate host names, and one more.
pub proof fn lemma_discovery_ends(s: Search, outcome: Outcome)
    requires
        in_range(s),
        answers(s, outcome),
    ensures
        steps_left(Search { stage: next_stage(s, outcome), ..s }) < steps_left(s),
        in_range(Search { stage: next_stage(s, outcome), ..s }),
{
}

/// A server is accepted only when a probe has reached it, and that alone makes it
/// accepted: nothing is asked of what it says.
pub proof fn lemma_found_means_reached(s: Search, outcome: Outcome)
    requires
        !(s.stage is Found),
        next_stage(s, outcome) is Found,
    ensures
        outcome == Outcome::Probed(true),
        step_of(s) == (Step::Probe { server: next_stage(s, outcome)->Found_0 }),
{
}

} // verus!
