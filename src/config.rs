use vstd::prelude::*;

verus! {

/// Why a `KEY=value` argument was refused.
#[derive(Clone, Copy, Debug, PartialEq, Eq, Structural)]
pub enum KeyValueError {
    /// The argument holds no `=`.
    MissingSeparator,
}

/// Whether `i` is the position of the first `=` in `s`.
pub open spec fn is_first_separator(s: Seq<char>, i: int) -> bool {
    &&& 0 <= i < s.len()
    &&& s[i] == '='
    &&& forall|j: int| 0 <= j < i ==> s[j] != '='
}

/// Splits `KEY=value` at its first `=`; the value may itself hold `=`.
pub fn parse_key_val(s: &str) -> (r: Result<(String, String), KeyValueError>)
    ensures
        match r {
            Ok((k, v)) => exists|i: int|
                is_first_separator(s@, i) && k@ == s@.subrange(0, i) && v@ == s@.subrange(
                    i + 1,
                    s@.len() as int,
                ),
            Err(_) => forall|i: int| 0 <= i < s@.len() ==> s@[i] != '=',
        },
{
    let n = s.unicode_len();
    let mut i: usize = 0;
    while i < n
        invariant
            n == s@.len(),
            i <= n,
            forall|j: int| 0 <= j < i ==> s@[j] != '=',
        decreases n - i,
    {
        if s.get_char(i) == '=' {
            let key = String::from_str(s.substring_char(0, i));
            let value = String::from_str(s.substring_char(i + 1, n));
            assert(is_first_separator(s@, i as int));
            return Ok((key, value));
        }
        i = i + 1;
    }
    Err(KeyValueError::MissingSeparator)
}

/// The header map that a list of name/value pairs gives: a later pair for a
/// name replaces an earlier one.
pub open spec fn header_map(pairs: Seq<(String, String)>) -> Map<Seq<char>, Seq<char>>
    decreases pairs.len(),
{
    if pairs.len() == 0 {
        Map::empty()
    } else {
        header_map(pairs.drop_last()).insert(pairs.last().0@, pairs.last().1@)
    }
}

/// No header name occurs twice.
pub open spec fn names_unique(hs: Seq<(String, String)>) -> bool {
    forall|i: int, j: int| 0 <= i < j < hs.len() ==> hs[i].0@ != hs[j].0@
}

/// Replacing the value of a header whose name occurs once replaces it in the map.
proof fn lemma_update_header(hs: Seq<(String, String)>, j: int, x: (String, String))
    requires
        names_unique(hs),
        0 <= j < hs.len(),
        hs[j].0@ == x.0@,
    ensures
        header_map(hs.update(j, x)) == header_map(hs).insert(x.0@, x.1@),
    decreases hs.len(),
{
    let u = hs.update(j, x);
    if j == hs.len() - 1 {
        assert(u.drop_last() =~= hs.drop_last());
        assert(header_map(u) =~= header_map(hs).insert(x.0@, x.1@));
    } else {
        assert(u.drop_last() =~= hs.drop_last().update(j, x));
        lemma_update_header(hs.drop_last(), j, x);
        assert(hs.last().0@ != x.0@);
        assert(header_map(u) =~= header_map(hs).insert(x.0@, x.1@));
    }
}

/// Where a request is sent and which headers go with it.
#[derive(Debug)]
pub struct EndpointConfig {
    pub base_url: String,
    /// Header names and values, each name once.
    pub headers: Vec<(String, String)>,
}

impl EndpointConfig {
    pub open spec fn wf(&self) -> bool {
        names_unique(self.headers@)
    }

    /// Position of the header named `name`, if any.
    fn find_header(hs: &Vec<(String, String)>, name: &String) -> (r: Option<usize>)
        ensures
            match r {
                Some(j) => j < hs@.len() && hs@[j as int].0@ == name@,
                None => forall|j: int| 0 <= j < hs@.len() ==> hs@[j].0@ != name@,
            },
    {
        let mut j: usize = 0;
        while j < hs.len()
            invariant
                j <= hs@.len(),
                forall|k: int| 0 <= k < j ==> hs@[k].0@ != name@,
            decreases hs@.len() - j,
        {
            if hs[j].0 == *name {
                return Some(j);
            }
            j = j + 1;
        }
        None
    }

    /// An endpoint with the headers that `pairs` gives, a later pair for a
    /// name replacing an earlier one.
    pub fn new(base_url: String, pairs: &Vec<(String, String)>) -> (r: EndpointConfig)
        ensures
            r.wf(),
            r.base_url@ == base_url@,
            header_map(r.headers@) == header_map(pairs@),
    {
        let mut headers: Vec<(String, String)> = Vec::new();
        let mut i: usize = 0;
        assert(pairs@.subrange(0, 0) =~= Seq::<(String, String)>::empty());
        while i < pairs.len()
            invariant
                i <= pairs@.len(),
                names_unique(headers@),
                header_map(headers@) == header_map(pairs@.subrange(0, i as int)),
            decreases pairs@.len() - i,
        {
            let name = pairs[i].0.clone();
            let value = pairs[i].1.clone();
            assert(pairs@.subrange(0, i + 1).drop_last() =~= pairs@.subrange(0, i as int));
            match EndpointConfig::find_header(&headers, &name) {
                Some(j) => {
                    proof {
                        lemma_update_header(headers@, j as int, (name, value));
                    }
                    headers.set(j, (name, value));
                },
                None => {
                    let ghost before = headers@;
                    headers.push((name, value));
                    assert(headers@.drop_last() =~= before);
                },
            }
            i = i + 1;
        }
        assert(pairs@.subrange(0, pairs@.len() as int) =~= pairs@);
        EndpointConfig { base_url, headers }
    }
}

} // verus!
