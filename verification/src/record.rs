use crate::text::{same_text, string_views};
use vstd::prelude::*;

verus! {

/// The view of a text that may be absent.
pub open spec fn opt_view(o: Option<String>) -> Option<Seq<char>> {
    match o {
        Some(s) => Some(s@),
        None => None,
    }
}

/// What a normalized registration record holds, as plain mathematical values.
pub struct Record {
    pub registrar: Option<Seq<char>>,
    pub creation_date: Option<Seq<char>>,
    pub expiration_date: Option<Seq<char>>,
    pub updated_date: Option<Seq<char>>,
    pub name_servers: Seq<Seq<char>>,
    pub status: Seq<Seq<char>>,
    pub registrant_name: Option<Seq<char>>,
    pub registrant_email: Option<Seq<char>>,
    pub admin_email: Option<Seq<char>>,
    pub tech_email: Option<Seq<char>>,
    pub created_ago: Option<i64>,
    pub updated_ago: Option<i64>,
    pub expires_in: Option<i64>,
}

/// The record in which nothing was found.
pub open spec fn empty_record() -> Record {
    Record {
        registrar: None,
        creation_date: None,
        expiration_date: None,
        updated_date: None,
        name_servers: Seq::empty(),
        status: Seq::empty(),
        registrant_name: None,
        registrant_email: None,
        admin_email: None,
        tech_email: None,
        created_ago: None,
        updated_ago: None,
        expires_in: None,
    }
}

/// The normalized registration record of a domain. The dates are kept as the reply
/// wrote them; the three day counts are derived from them.
#[derive(Debug, Clone)]
pub struct ParsedWhoisData {
    pub registrar: Option<String>,
    pub creation_date: Option<String>,
    pub expiration_date: Option<String>,
    pub updated_date: Option<String>,
    pub name_servers: Vec<String>,
    pub status: Vec<String>,
    pub registrant_name: Option<String>,
    pub registrant_email: Option<String>,
    pub admin_email: Option<String>,
    pub tech_email: Option<String>,
    /// Days since creation.
    pub created_ago: Option<i64>,
    /// Days since the last update.
    pub updated_ago: Option<i64>,
    /// Days until expiration: negative once it has passed.
    pub expires_in: Option<i64>,
}

impl View for ParsedWhoisData {
    type V = Record;

    open spec fn view(&self) -> Record {
        Record {
            registrar: opt_view(self.registrar),
            creation_date: opt_view(self.creation_date),
            expiration_date: opt_view(self.expiration_date),
            updated_date: opt_view(self.updated_date),
            name_servers: string_views(self.name_servers@),
            status: string_views(self.status@),
            registrant_name: opt_view(self.registrant_name),
            registrant_email: opt_view(self.registrant_email),
            admin_email: opt_view(self.admin_email),
            tech_email: opt_view(self.tech_email),
            created_ago: self.created_ago,
            updated_ago: self.updated_ago,
            expires_in: self.expires_in,
        }
    }
}

impl ParsedWhoisData {
    /// The record in which nothing was found.
    pub fn empty() -> (r: ParsedWhoisData)
        ensures
            r@ == empty_record(),
    {
        let r = ParsedWhoisData {
            registrar: None,
            creation_date: None,
            expiration_date: None,
            updated_date: None,
            name_servers: Vec::new(),
            status: Vec::new(),
            registrant_name: None,
            registrant_email: None,
            admin_email: None,
            tech_email: None,
            created_ago: None,
            updated_ago: None,
            expires_in: None,
        };
        proof {
            assert(string_views(r.name_servers@) =~= Seq::<Seq<char>>::empty());
            assert(string_views(r.status@) =~= Seq::<Seq<char>>::empty());
        }
        r
    }
}

/// Tells whether the text `s` is among `v`.
pub fn list_has(v: &Vec<String>, s: &str) -> (b: bool)
    ensures
        b == string_views(v@).contains(s@),
{
    let mut i: usize = 0;
    while i < v.len()
        invariant
            i <= v.len(),
            forall|k: int| 0 <= k < i ==> string_views(v@)[k] != s@,
        decreases v.len() - i,
    {
        if same_text(v[i].as_str(), s) {
            proof {
                assert(string_views(v@)[i as int] == s@);
            }
            return true;
        }
        i += 1;
    }
    false
}

/// Appends `s` to `v` unless it is there already.
pub fn push_unique(v: &mut Vec<String>, s: String)
    ensures
        string_views(final(v)@) == add_unique(string_views(old(v)@), s@),
{
    if !list_has(v, s.as_str()) {
        let ghost before = string_views(v@);
        let ghost sv = s@;
        v.push(s);
        proof {
            assert(string_views(v@) =~= before.push(sv));
        }
    }
}

/// `list` with `item` at its end, unless `list` holds it already.
pub open spec fn add_unique(list: Seq<Seq<char>>, item: Seq<char>) -> Seq<Seq<char>> {
    if list.contains(item) {
        list
    } else {
        list.push(item)
    }
}

/// `list` with each of its values once, in the order in which they first appear.
pub open spec fn without_repeats(list: Seq<Seq<char>>) -> Seq<Seq<char>>
    decreases list.len(),
{
    if list.len() == 0 {
        Seq::empty()
    } else {
        add_unique(without_repeats(list.drop_last()), list.last())
    }
}

proof fn lemma_push_contains(s: Seq<Seq<char>>, v: Seq<char>, x: Seq<char>)
    ensures
        s.push(v).contains(x) <==> (s.contains(x) || x == v),
{
    let t = s.push(v);
    if t.contains(x) {
        let i = choose|i: int| 0 <= i < t.len() && t[i] == x;
        if i < s.len() {
            assert(s[i] == x);
        }
    }
    if s.contains(x) {
        let i = choose|i: int| 0 <= i < s.len() && s[i] == x;
        assert(t[i] == x);
    }
    if x == v {
        assert(t[s.len() as int] == x);
    }
}

/// A list without repeats holds no value twice, and holds what the list holds.
pub proof fn lemma_without_repeats(list: Seq<Seq<char>>)
    ensures
        without_repeats(list).no_duplicates(),
        forall|x: Seq<char>| without_repeats(list).contains(x) <==> list.contains(x),
    decreases list.len(),
{
    if list.len() > 0 {
        let front = list.drop_last();
        let last = list.last();
        let held = without_repeats(front);
        let all = without_repeats(list);
        lemma_without_repeats(front);
        assert(list =~= front.push(last));
        assert forall|x: Seq<char>| all.contains(x) <==> list.contains(x) by {
            lemma_push_contains(front, last, x);
            lemma_push_contains(held, last, x);
            assert(held.contains(x) <==> front.contains(x));
        }
        lemma_add_unique(held, last);
    }
}

/// A list that holds no value twice holds none twice once a value was added to
/// it, and holds that value then.
pub proof fn lemma_add_unique(list: Seq<Seq<char>>, item: Seq<char>)
    requires
        list.no_duplicates(),
    ensures
        add_unique(list, item).no_duplicates(),
        add_unique(list, item).contains(item),
{
    let all = add_unique(list, item);
    if !list.contains(item) {
        assert(all[all.len() - 1] == item);
        assert forall|i: int, j: int| 0 <= i < j < all.len() implies all[i] != all[j] by {
            if j == all.len() - 1 {
                assert(list[i] == all[i]);
                assert(list.contains(all[i]));
            } else {
                assert(list[i] == all[i] && list[j] == all[j]);
            }
        }
    }
}

} // verus!
