use crate::text::{
    begins_with, chars_of, is_text, leading_token, lines, lowercase, lowered, parse_unsigned,
    rest_after_token, second_token, split_lines, starts_with, string_of, unsigned_of, views,
};
use vstd::prelude::*;

verus! {

/// The settings that the lookup engine works with.
#[derive(Debug, Clone)]
pub struct Config {
    pub port: u16,
    /// The time that one network operation may take, in seconds.
    pub whois_timeout_seconds: u64,
    /// The most bytes that a reply may have.
    pub max_response_size: usize,
    pub cache_ttl_seconds: u64,
    pub cache_max_entries: u64,
    /// The most referrals that are followed for one lookup.
    pub max_referrals: usize,
    /// The time that one step of a discovery may take, in seconds.
    pub discovery_timeout_seconds: u64,
    /// The most lookups that query a server at a time.
    pub concurrent_whois_queries: usize,
    /// The most buffers that the pool keeps.
    pub buffer_pool_size: usize,
    /// The size of each buffer, in bytes.
    pub buffer_size: usize,
}

/// The settings that fit the machine, before any is overridden.
#[derive(Debug, Clone, Copy, PartialEq, Eq, Structural)]
pub struct SystemCapabilities {
    pub default_timeout: u64,
    pub max_response_size: usize,
    pub cache_ttl: u64,
    pub cache_max_entries: u64,
    pub max_referrals: usize,
    pub discovery_timeout: u64,
    pub concurrent_whois_queries: usize,
    pub buffer_pool_size: usize,
    pub buffer_size: usize,
}

/// Bytes in a gibibyte.
pub const GIB: u64 = 1_073_741_824;

/// The memory that is taken to be available where it cannot be found out.
pub const DEFAULT_AVAILABLE_MEMORY: u64 = 4_294_967_296;

/// The port that is listened on where none is set.
pub const DEFAULT_PORT: u16 = 3000;

/// The most lookups that query a server at a time, however many cores there are.
pub const MAX_CONCURRENT_QUERIES: usize = 8;

/// The size of the memory `available_memory`: 0 up to 2 GiB, 1 up to 8 GiB, 2 up
/// to 16 GiB, 3 above, each bound counted in whole gibibytes.
pub open spec fn memory_class(available_memory: u64) -> int {
    let gb = available_memory / GIB;
    if gb <= 2 {
        0
    } else if gb <= 8 {
        1
    } else if gb <= 16 {
        2
    } else {
        3
    }
}

/// The number of cache entries that fits a memory of the class `class`.
pub open spec fn cache_size_of(class: int) -> u64 {
    if class == 0 {
        1000
    } else if class == 1 {
        5000
    } else if class == 2 {
        10000
    } else {
        25000
    }
}

/// The number of pooled buffers that fits a memory of the class `class`.
pub open spec fn buffer_pool_size_of(class: int) -> usize {
    if class == 0 {
        10
    } else if class == 1 {
        50
    } else if class == 2 {
        100
    } else {
        200
    }
}

/// The buffer size that fits a memory of the class `class`.
pub open spec fn buffer_size_of(class: int) -> usize {
    if class == 0 {
        4096
    } else if class == 1 {
        8192
    } else if class == 2 {
        16384
    } else {
        32768
    }
}

/// The settings that fit a machine with `available_memory` bytes of memory and
/// `cpu_cores` cores, in production or not. The most bytes that a reply may have
/// are given: they are reckoned elsewhere.
pub open spec fn capabilities_of(
    available_memory: u64,
    cpu_cores: usize,
    is_production: bool,
    max_response_size: usize,
) -> SystemCapabilities {
    SystemCapabilities {
        default_timeout: if is_production {
            30
        } else {
            15
        },
        max_response_size,
        cache_ttl: if is_production {
            3600
        } else {
            1800
        },
        cache_max_entries: cache_size_of(memory_class(available_memory)),
        max_referrals: if is_production {
            10
        } else {
            5
        },
        discovery_timeout: if is_production {
            20
        } else {
            10
        },
        concurrent_whois_queries: if cpu_cores <= MAX_CONCURRENT_QUERIES {
            cpu_cores
        } else {
            MAX_CONCURRENT_QUERIES
        },
        buffer_pool_size: buffer_pool_size_of(memory_class(available_memory)),
        buffer_size: buffer_size_of(memory_class(available_memory)),
    }
}

/// The number that the decimal text `s` stands for, where it fits 64 bits.
pub open spec fn u64_of(s: Seq<char>) -> Option<u64> {
    match unsigned_of(s, u64::MAX as nat) {
        Some(n) => Some(n as u64),
        None => None,
    }
}

/// The number that the decimal text `s` stands for, where it fits 16 bits.
pub open spec fn u16_of(s: Seq<char>) -> Option<u16> {
    match unsigned_of(s, u16::MAX as nat) {
        Some(n) => Some(n as u16),
        None => None,
    }
}

fn parse_u64(s: &str) -> (r: Option<u64>)
    ensures
        r == u64_of(s@),
{
    parse_unsigned(s, u64::MAX)
}

fn parse_u16(s: &str) -> (r: Option<u16>)
    ensures
        r == u16_of(s@),
{
    match parse_unsigned(s, 65535) {
        Some(n) => Some(n as u16),
        None => None,
    }
}

/// The bytes of memory that a line of the kernel's memory report says are
/// available: the line begins with `MemAvailable:` and its second token is a
/// number of kibibytes. `None` for any other line, and where the bytes do not fit.
pub open spec fn available_in_line(line: Seq<char>) -> Option<u64> {
    if starts_with(line, "MemAvailable:"@) && second_token(line).len() > 0 {
        match u64_of(second_token(line)) {
            Some(kb) => if kb * 1024 <= u64::MAX {
                Some((kb * 1024) as u64)
            } else {
                None
            },
            None => None,
        }
    } else {
        None
    }
}

/// The bytes of memory that the first of `all` to say so says are available.
pub open spec fn first_available(all: Seq<Seq<char>>) -> Option<u64>
    decreases all.len(),
{
    if all.len() == 0 {
        None
    } else {
        match available_in_line(all[0]) {
            Some(bytes) => Some(bytes),
            None => first_available(all.drop_first()),
        }
    }
}

/// The memory that is taken to be available, given the kernel's memory report
/// where there is one: 4 GiB where the report does not say.
pub open spec fn available_memory_of(meminfo: Option<Seq<char>>) -> u64 {
    match meminfo {
        Some(text) => match first_available(lines(text)) {
            Some(bytes) => bytes,
            None => DEFAULT_AVAILABLE_MEMORY,
        },
        None => DEFAULT_AVAILABLE_MEMORY,
    }
}

/// An environment named `production` or `prod`, in any mix of cases.
pub open spec fn is_production_name(name: Seq<char>) -> bool {
    lowercase(name) == "production"@ || lowercase(name) == "prod"@
}

/// The port for the value of the first of the port variables that is set.
pub open spec fn port_of(value: Option<Seq<char>>) -> u16 {
    match value {
        Some(text) => match u16_of(text) {
            Some(port) => port,
            None => DEFAULT_PORT,
        },
        None => DEFAULT_PORT,
    }
}

/// The settings of the environment that override a setting, each with the setting
/// that it overrides. Where two that are set name one setting, the later counts.
pub open spec fn env_mappings() -> Seq<(Seq<char>, Seq<char>)> {
    seq![
        ("PORT"@, "port"@),
        ("WHOIS_TIMEOUT_SECONDS"@, "whois_timeout_seconds"@),
        ("WHOIS_TIMEOUT"@, "whois_timeout_seconds"@),
        ("MAX_RESPONSE_SIZE"@, "max_response_size"@),
        ("CACHE_TTL_SECONDS"@, "cache_ttl_seconds"@),
        ("CACHE_TTL"@, "cache_ttl_seconds"@),
        ("CACHE_MAX_ENTRIES"@, "cache_max_entries"@),
        ("CACHE_SIZE"@, "cache_max_entries"@),
        ("MAX_REFERRALS"@, "max_referrals"@),
        ("DISCOVERY_TIMEOUT_SECONDS"@, "discovery_timeout_seconds"@),
        ("DISCOVERY_TIMEOUT"@, "discovery_timeout_seconds"@),
        ("CONCURRENT_WHOIS_QUERIES"@, "concurrent_whois_queries"@),
        ("BUFFER_POOL_SIZE"@, "buffer_pool_size"@),
        ("BUFFER_SIZE"@, "buffer_size"@),
    ]
}

/// The views of the pairs in `v`, in order.
pub open spec fn mapping_views(v: Seq<(&'static str, &'static str)>) -> Seq<
    (Seq<char>, Seq<char>),
> {
    Seq::new(v.len(), |i: int| (v[i].0@, v[i].1@))
}

fn available_from_line(line: &Vec<char>) -> (r: Option<u64>)
    ensures
        r == available_in_line(line@),
{
    if !begins_with(line, "MemAvailable:") {
        return None;
    }
    let token = leading_token(&rest_after_token(line));
    if token.len() == 0 {
        return None;
    }
    match parse_u64(string_of(&token).as_str()) {
        Some(kb) => kb.checked_mul(1024),
        None => None,
    }
}

impl Config {
    /// The memory class of `available_memory`.
    fn class_of(available_memory: u64) -> (class: u8)
        ensures
            class == memory_class(available_memory),
    {
        let gb = available_memory / GIB;
        if gb <= 2 {
            0
        } else if gb <= 8 {
            1
        } else if gb <= 16 {
            2
        } else {
            3
        }
    }

    /// The number of cache entries that fits the memory.
    pub fn calculate_cache_size(available_memory: u64) -> (n: u64)
        ensures
            n == cache_size_of(memory_class(available_memory)),
    {
        let class = Config::class_of(available_memory);
        if class == 0 {
            1000
        } else if class == 1 {
            5000
        } else if class == 2 {
            10000
        } else {
            25000
        }
    }

    /// The number of pooled buffers that fits the memory.
    pub fn calculate_buffer_pool_size(available_memory: u64) -> (n: usize)
        ensures
            n == buffer_pool_size_of(memory_class(available_memory)),
    {
        let class = Config::class_of(available_memory);
        if class == 0 {
            10
        } else if class == 1 {
            50
        } else if class == 2 {
            100
        } else {
            200
        }
    }

    /// The buffer size that fits the memory.
    pub fn calculate_buffer_size(available_memory: u64) -> (n: usize)
        ensures
            n == buffer_size_of(memory_class(available_memory)),
    {
        let class = Config::class_of(available_memory);
        if class == 0 {
            4096
        } else if class == 1 {
            8192
        } else if class == 2 {
            16384
        } else {
            32768
        }
    }

    /// The settings that fit the machine.
    pub fn detect_system_capabilities(
        available_memory: u64,
        cpu_cores: usize,
        is_production: bool,
        max_response_size: usize,
    ) -> (c: SystemCapabilities)
        ensures
            c == capabilities_of(available_memory, cpu_cores, is_production, max_response_size),
    {
        SystemCapabilities {
            default_timeout: if is_production {
                30
            } else {
                15
            },
            max_response_size,
            cache_ttl: if is_production {
                3600
            } else {
                1800
            },
            cache_max_entries: Config::calculate_cache_size(available_memory),
            max_referrals: if is_production {
                10
            } else {
                5
            },
            discovery_timeout: if is_production {
                20
            } else {
                10
            },
            concurrent_whois_queries: if cpu_cores <= MAX_CONCURRENT_QUERIES {
                cpu_cores
            } else {
                MAX_CONCURRENT_QUERIES
            },
            buffer_pool_size: Config::calculate_buffer_pool_size(available_memory),
            buffer_size: Config::calculate_buffer_size(available_memory),
        }
    }

    /// The memory that is taken to be available, given the kernel's memory report
    /// where it could be read.
    pub fn get_available_memory(meminfo: Option<&str>) -> (bytes: u64)
        ensures
            bytes == available_memory_of(
                match meminfo {
                    Some(text) => Some(text@),
                    None => None,
                },
            ),
    {
        match meminfo {
            Some(text) => {
                let all = split_lines(&chars_of(text));
                let ghost every = views(all@);
                let mut i: usize = 0;
                proof {
                    assert(every.skip(0) =~= every);
                }
                while i < all.len()
                    invariant
                        i <= all.len(),
                        every == views(all@),
                        every == lines(text@),
                        meminfo == Some(text),
                        first_available(every) == first_available(every.skip(i as int)),
                    decreases all.len() - i,
                {
                    proof {
                        assert(every.skip(i as int)[0] == all@[i as int]@);
                        assert(every.skip(i as int).drop_first() =~= every.skip(i + 1));
                    }
                    match available_from_line(&all[i]) {
                        Some(bytes) => {
                            return bytes;
                        },
                        None => {},
                    }
                    i += 1;
                }
                DEFAULT_AVAILABLE_MEMORY
            },
            None => DEFAULT_AVAILABLE_MEMORY,
        }
    }

    /// Tells whether the environment named `name` is production.
    pub fn is_production_environment(name: &str) -> (b: bool)
        ensures
            b == is_production_name(name@),
    {
        let low = lowered(&chars_of(name));
        is_text(&low, "production") || is_text(&low, "prod")
    }

    /// The port to listen on, given the value of the first of the port variables
    /// that is set: 3000 where none is set or the value is no port.
    pub fn get_default_port(value: Option<&str>) -> (port: u16)
        ensures
            port == port_of(
                match value {
                    Some(text) => Some(text@),
                    None => None,
                },
            ),
    {
        match value {
            Some(text) => match parse_u16(text) {
                Some(port) => port,
                None => DEFAULT_PORT,
            },
            None => DEFAULT_PORT,
        }
    }

    /// The settings of the environment that override a setting, in the order in
    /// which they are applied.
    pub fn env_overrides() -> (mappings: Vec<(&'static str, &'static str)>)
        ensures
            mapping_views(mappings@) == env_mappings(),
    {
        let mappings = vec![
            ("PORT", "port"),
            ("WHOIS_TIMEOUT_SECONDS", "whois_timeout_seconds"),
            ("WHOIS_TIMEOUT", "whois_timeout_seconds"),
            ("MAX_RESPONSE_SIZE", "max_response_size"),
            ("CACHE_TTL_SECONDS", "cache_ttl_seconds"),
            ("CACHE_TTL", "cache_ttl_seconds"),
            ("CACHE_MAX_ENTRIES", "cache_max_entries"),
            ("CACHE_SIZE", "cache_max_entries"),
            ("MAX_REFERRALS", "max_referrals"),
            ("DISCOVERY_TIMEOUT_SECONDS", "discovery_timeout_seconds"),
            ("DISCOVERY_TIMEOUT", "discovery_timeout_seconds"),
            ("CONCURRENT_WHOIS_QUERIES", "concurrent_whois_queries"),
            ("BUFFER_POOL_SIZE", "buffer_pool_size"),
            ("BUFFER_SIZE", "buffer_size"),
        ];
        proof {
            assert(mapping_views(mappings@) =~= env_mappings());
        }
        mappings
    }

    /// The settings before any is overridden: those that fit the machine, and the
    /// port.
    pub fn from_capabilities(port: u16, capabilities: &SystemCapabilities) -> (config: Config)
        ensures
            config.port == port,
            config.whois_timeout_seconds == capabilities.default_timeout,
            config.max_response_size == capabilities.max_response_size,
            config.cache_ttl_seconds == capabilities.cache_ttl,
            config.cache_max_entries == capabilities.cache_max_entries,
            config.max_referrals == capabilities.max_referrals,
            config.discovery_timeout_seconds == capabilities.discovery_timeout,
            config.concurrent_whois_queries == capabilities.concurrent_whois_queries,
            config.buffer_pool_size == capabilities.buffer_pool_size,
            config.buffer_size == capabilities.buffer_size,
    {
        Config {
            port,
            whois_timeout_seconds: capabilities.default_timeout,
            max_response_size: capabilities.max_response_size,
            cache_ttl_seconds: capabilities.cache_ttl,
            cache_max_entries: capabilities.cache_max_entries,
            max_referrals: capabilities.max_referrals,
            discovery_timeout_seconds: capabilities.discovery_timeout,
            concurrent_whois_queries: capabilities.concurrent_whois_queries,
            buffer_pool_size: capabilities.buffer_pool_size,
            buffer_size: capabilities.buffer_size,
        }
    }

    /// The most discoveries that query a server at a time: twice as many as
    /// lookups may, so that neither kind holds up the other.
    pub fn discovery_permits(&self) -> (n: usize)
        ensures
            n == if self.concurrent_whois_queries * 2 <= usize::MAX {
                (self.concurrent_whois_queries * 2) as usize
            } else {
                usize::MAX
            },
    {
        if self.concurrent_whois_queries <= usize::MAX / 2 {
            self.concurrent_whois_queries * 2
        } else {
            usize::MAX
        }
    }
}

} // verus!
