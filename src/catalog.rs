use vstd::prelude::*;

verus! {

/// Whether `c` is an ASCII decimal digit.
pub open spec fn is_digit(c: char) -> bool {
    '0' <= c && c <= '9'
}

/// The value of a decimal digit.
pub open spec fn digit_value(c: char) -> int {
    (c as u32) - ('0' as u32)
}

/// The value of a string of decimal digits, most significant first.
pub open spec fn digits_value(s: Seq<char>) -> int
    decreases s.len(),
{
    if s.len() == 0 {
        0
    } else {
        10 * digits_value(s.drop_last()) + digit_value(s.last())
    }
}

/// Whether `s` is a non-empty string of decimal digits.
pub open spec fn all_digits(s: Seq<char>) -> bool {
    s.len() > 0 && forall|i: int| 0 <= i < s.len() ==> is_digit(#[trigger] s[i])
}

/// Whether `s` starts with a minus sign.
pub open spec fn has_minus(s: Seq<char>) -> bool {
    s.len() > 0 && s[0] == '-'
}

/// `s` without its leading sign, if it has one.
pub open spec fn unsigned_part(s: Seq<char>) -> Seq<char> {
    if s.len() > 0 && (s[0] == '-' || s[0] == '+') {
        s.drop_first()
    } else {
        s
    }
}

/// The integer that a string denotes, as `str::parse::<i64>` reads it: an
/// optional `+` or `-`, then at least one decimal digit, and a value that
/// fits in 64 bits. Anything else denotes none.
pub open spec fn parsed_i64(s: Seq<char>) -> Option<int> {
    let body = unsigned_part(s);
    let v = if has_minus(s) {
        -digits_value(body)
    } else {
        digits_value(body)
    };
    if all_digits(body) && i64::MIN <= v <= i64::MAX {
        Some(v)
    } else {
        None
    }
}

proof fn lemma_digits_value_grows(s: Seq<char>, k: int)
    requires
        0 <= k <= s.len(),
        forall|i: int| 0 <= i < s.len() ==> is_digit(#[trigger] s[i]),
    ensures
        0 <= digits_value(s.subrange(0, k)) <= digits_value(s),
    decreases s.len() - k,
{
    if k < s.len() {
        lemma_digits_value_grows(s, k + 1);
        let p = s.subrange(0, k + 1);
        assert(p.drop_last() =~= s.subrange(0, k));
        assert(is_digit(s[k]));
    } else {
        assert(s.subrange(0, k) =~= s);
        lemma_digits_value_nonneg(s);
    }
}

proof fn lemma_digits_value_nonneg(s: Seq<char>)
    requires
        forall|i: int| 0 <= i < s.len() ==> is_digit(#[trigger] s[i]),
    ensures
        0 <= digits_value(s),
    decreases s.len(),
{
    if s.len() > 0 {
        let t = s.drop_last();
        assert forall|i: int| 0 <= i < t.len() implies is_digit(#[trigger] t[i]) by {
            assert(t[i] == s[i]);
        }
        lemma_digits_value_nonneg(t);
        assert(is_digit(s[s.len() - 1]));
    }
}

/// Reads a decimal integer as `str::parse::<i64>` does.
pub fn parse_i64(s: &str) -> (r: Option<i64>)
    ensures
        r matches Some(v) ==> parsed_i64(s@) == Some(v as int),
        r is None ==> parsed_i64(s@) is None,
{
    let n = s.unicode_len();
    if n == 0 {
        return None;
    }
    let first = s.get_char(0);
    let negative = first == '-';
    let start: usize = if first == '-' || first == '+' {
        1
    } else {
        0
    };
    if start == n {
        return None;
    }
    let ghost body = unsigned_part(s@);
    proof {
        assert(body =~= s@.subrange(start as int, n as int));
    }
    let limit: i128 = 9223372036854775808;
    let mut acc: i128 = 0;
    let mut i: usize = start;
    while i < n
        invariant
            start <= i <= n,
            n == s@.len(),
            start < n,
            body == s@.subrange(start as int, n as int),
            body == unsigned_part(s@),
            0 <= acc <= limit,
            limit == 9223372036854775808,
            acc == digits_value(body.subrange(0, i - start)),
            forall|j: int| 0 <= j < i - start ==> is_digit(#[trigger] body[j]),
        decreases n - i,
    {
        let c = s.get_char(i);
        if !('0' <= c && c <= '9') {
            proof {
                assert(body[i - start] == c);
            }
            return None;
        }
        let d = ((c as u32) - ('0' as u32)) as i128;
        proof {
            let p = body.subrange(0, i - start + 1);
            assert(p.drop_last() =~= body.subrange(0, i - start));
            assert(p.last() == c);
            assert(acc * 10 <= limit * 10) by (nonlinear_arith)
                requires
                    0 <= acc <= limit,
            ;
        }
        acc = acc * 10 + d;
        proof {
            assert(acc == digits_value(body.subrange(0, i - start + 1)));
        }
        if acc > limit {
            proof {
                assert(body[i - start] == c);
                if all_digits(body) {
                    lemma_digits_value_grows(body, i - start + 1);
                }
            }
            return None;
        }
        i = i + 1;
    }
    proof {
        assert(body.subrange(0, n - start) =~= body);
    }
    if negative {
        Some((0 - acc) as i64)
    } else if acc < limit {
        Some(acc as i64)
    } else {
        None
    }
}

/// A description table: for each code, the text of its last entry.
pub open spec fn table(entries: Seq<(i64, Seq<char>)>) -> Map<i64, Seq<char>>
    decreases entries.len(),
{
    if entries.len() == 0 {
        Map::empty()
    } else {
        table(entries.drop_last()).insert(entries.last().0, entries.last().1)
    }
}

/// The text given for codes that the table does not hold.
pub const UNKNOWN_ERROR: &'static str = "Unknown error";

/// The description of a code: its entry, or [`UNKNOWN_ERROR`].
pub open spec fn description(t: Map<i64, Seq<char>>, code: i64) -> Seq<char> {
    if t.contains_key(code) {
        t[code]
    } else {
        UNKNOWN_ERROR@
    }
}

/// The descriptions of build exit codes shown to operators. It is built
/// once at startup and handed to whatever needs it.
#[derive(Debug, Clone)]
pub struct ErrorCatalog {
    entries: Vec<(i64, String)>,
}

impl View for ErrorCatalog {
    type V = Map<i64, Seq<char>>;

    closed spec fn view(&self) -> Map<i64, Seq<char>> {
        table(self.entries@.map_values(|e: (i64, String)| (e.0, e.1@)))
    }
}

/// The code a member name gives: the integer it denotes, or `-1`.
pub open spec fn code_of(name: Seq<char>) -> i64 {
    match parsed_i64(name) {
        Some(v) => v as i64,
        None => -1i64,
    }
}

/// The text a member value gives: the string it holds, or nothing.
pub open spec fn text_of(value: Option<String>) -> Seq<char> {
    match value {
        Some(s) => s@,
        None => Seq::empty(),
    }
}

/// The table entries that the members of a JSON object give, in order.
pub open spec fn member_entries(members: Seq<(String, Option<String>)>) -> Seq<(i64, Seq<char>)> {
    members.map_values(|m: (String, Option<String>)| (code_of(m.0@), text_of(m.1)))
}

impl ErrorCatalog {
    /// A catalog without entries.
    pub fn new() -> (r: ErrorCatalog)
        ensures
            r@ == Map::<i64, Seq<char>>::empty(),
    {
        let r = ErrorCatalog { entries: Vec::new() };
        proof {
            assert(r.entries@.map_values(|e: (i64, String)| (e.0, e.1@)) =~= Seq::<(i64, Seq<char>)>::empty());
        }
        r
    }

    /// Gives `code` the description `text`, replacing an earlier one.
    pub fn insert(&mut self, code: i64, text: String)
        ensures
            final(self)@ == old(self)@.insert(code, text@),
    {
        let ghost before = self.entries@;
        self.entries.push((code, text));
        proof {
            let f = |e: (i64, String)| (e.0, e.1@);
            assert(self.entries@.map_values(f).drop_last() =~= before.map_values(f));
        }
    }

    /// The catalog that the members of a JSON object give, in order: each
    /// member name read as an integer code (`-1` when it is none), each
    /// string value as its text (empty when the value is no string). A
    /// later member for the same code wins.
    pub fn from_members(members: &Vec<(String, Option<String>)>) -> (r: ErrorCatalog)
        ensures
            r@ == table(member_entries(members@)),
    {
        let mut r = ErrorCatalog::new();
        let mut i: usize = 0;
        while i < members.len()
            invariant
                i <= members.len(),
                r@ == table(member_entries(members@.subrange(0, i as int))),
            decreases members.len() - i,
        {
            let code = match parse_i64(members[i].0.as_str()) {
                Some(v) => v,
                None => -1,
            };
            let text = match &members[i].1 {
                Some(s) => s.clone(),
                None => String::new(),
            };
            r.insert(code, text);
            proof {
                let next = member_entries(members@.subrange(0, i as int + 1));
                assert(next.drop_last() =~= member_entries(members@.subrange(0, i as int)));
            }
            i = i + 1;
        }
        proof {
            assert(members@.subrange(0, members@.len() as int) =~= members@);
        }
        r
    }

    /// The description of `code`, or [`UNKNOWN_ERROR`] when it has none.
    pub fn describe(&self, code: i64) -> (r: String)
        ensures
            r@ == description(self@, code),
    {
        let ghost view = self.entries@.map_values(|e: (i64, String)| (e.0, e.1@));
        let mut found: Option<usize> = None;
        let mut i: usize = 0;
        while i < self.entries.len()
            invariant
                i <= self.entries.len(),
                view == self.entries@.map_values(|e: (i64, String)| (e.0, e.1@)),
                found is None <==> !table(view.subrange(0, i as int)).contains_key(code),
                found matches Some(k) ==> k < i && table(view.subrange(0, i as int))[code]
                    == self.entries@[k as int].1@,
            decreases self.entries.len() - i,
        {
            proof {
                assert(view.subrange(0, i as int + 1).drop_last() =~= view.subrange(0, i as int));
            }
            if self.entries[i].0 == code {
                found = Some(i);
            }
            i = i + 1;
        }
        proof {
            assert(view.subrange(0, self.entries@.len() as int) =~= view);
        }
        match found {
            Some(k) => self.entries[k].1.clone(),
            None => String::from_str(UNKNOWN_ERROR),
        }
    }
}

#[verifier::external_type_specification]
#[verifier::external_body]
pub struct ExJsonValue(serde_json::Value);

#[verifier::external_type_specification]
#[verifier::external_body]
#[verifier::reject_recursive_types(K)]
#[verifier::reject_recursive_types(V)]
pub struct ExJsonMap<K, V>(serde_json::Map<K, V>);

pub assume_specification[ serde_json::Value::as_object ](v: &serde_json::Value) -> Option<
    &serde_json::Map<String, serde_json::Value>,
>;

pub assume_specification[ serde_json::Value::as_str ](v: &serde_json::Value) -> Option<&str>;

/// Relies on `serde_json::from_str`: reads the text as one JSON value, or
/// gives nothing when it is not JSON.
#[verifier::external_body]
fn parse_json(text: &str) -> (r: Option<serde_json::Value>) {
    serde_json::from_str(text).ok()
}

/// Relies on `serde_json::Map::iter`: the members of an object, in the
/// map's order.
#[verifier::external_body]
fn map_members(m: &serde_json::Map<String, serde_json::Value>) -> (r: Vec<
    (String, serde_json::Value),
>) {
    m.iter().map(|(k, v)| (k.clone(), v.clone())).collect()
}

impl ErrorCatalog {
    /// The catalog that a JSON document gives: an object whose member
    /// names are codes and whose string values are their descriptions, as
    /// [`ErrorCatalog::from_members`] reads them. A document that is no
    /// object gives an empty catalog; text that is not JSON gives none.
    pub fn from_json(text: &str) -> (r: Option<ErrorCatalog>)
        ensures
            r matches Some(c) ==> exists|members: Seq<(String, Option<String>)>|
                c@ == table(member_entries(members)),
    {
        let value = match parse_json(text) {
            Some(v) => v,
            None => {
                return None;
            },
        };
        let mut members: Vec<(String, Option<String>)> = Vec::new();
        match value.as_object() {
            Some(map) => {
                let pairs = map_members(map);
                let mut i: usize = 0;
                while i < pairs.len()
                    invariant
                        i <= pairs.len(),
                    decreases pairs.len() - i,
                {
                    let text = match pairs[i].1.as_str() {
                        Some(t) => Some(String::from_str(t)),
                        None => None,
                    };
                    members.push((pairs[i].0.clone(), text));
                    i = i + 1;
                }
            },
            None => {},
        }
        let c = ErrorCatalog::from_members(&members);
        Some(c)
    }
}

/// The description of a build exit code in `catalog`.
pub fn get_error_descriptions(catalog: &ErrorCatalog, error: i64) -> (r: String)
    ensures
        r@ == description(catalog@, error),
{
    catalog.describe(error)
}

} // verus!
