use vstd::prelude::*;
use vstd::string::StringSliceAdditionalSpecFns;
use crate::store::{after_request, default_parameter, is_usable, StateStore, StoreView};

verus! {

/// What `application/x-www-form-urlencoded` decoding of `q` yields as values,
/// one per name/value pair, in the order of the pairs.
pub uninterp spec fn form_values(q: Seq<u8>) -> Seq<Seq<char>>;

/// Relies on `url::form_urlencoded::parse`: the decoded pairs of `q`, in
/// order, of which the values are kept; an empty input has no pairs.
#[verifier::external_body]
fn decoded_values(q: &[u8]) -> (r: Vec<String>)
    ensures
        r@.len() == form_values(q@).len(),
        forall|i: int| 0 <= i < r@.len() ==> #[trigger] r@[i]@ == form_values(q@)[i],
        q@.len() == 0 ==> r@.len() == 0,
{
    url::form_urlencoded::parse(q).map(|(_name, value)| value.into_owned()).collect()
}

pub open spec fn is_query_mark(b: u8) -> bool {
    b == 0x3Fu8
}

/// `i` is the position of the first `?` of `uri`.
pub open spec fn first_mark(uri: Seq<u8>, i: int) -> bool {
    0 <= i < uri.len() && is_query_mark(uri[i]) && forall|j: int|
        0 <= j < i ==> !is_query_mark(#[trigger] uri[j])
}

/// The query component of a request target: the bytes after its first `?`.
pub open spec fn query_of(uri: Seq<u8>) -> Option<Seq<u8>> {
    if exists|i: int| first_mark(uri, i) {
        let i = choose|i: int| first_mark(uri, i);
        Some(uri.subrange(i + 1, uri.len() as int))
    } else {
        None
    }
}

/// The first non-empty value of `vs`, if any.
pub open spec fn first_non_empty(vs: Seq<Seq<char>>) -> Option<Seq<char>>
    decreases vs.len(),
{
    if vs.len() == 0 {
        None
    } else if vs[0].len() > 0 {
        Some(vs[0])
    } else {
        first_non_empty(vs.drop_first())
    }
}

/// The parameter that a request to `uri` carries: the first value of its
/// query that is non-empty once decoded.
pub open spec fn extracted_parameter(uri: Seq<u8>) -> Option<Seq<char>> {
    match query_of(uri) {
        Some(q) => first_non_empty(form_values(q)),
        None => None,
    }
}

pub open spec fn digit_char(d: nat) -> char {
    if d == 0 { '0' }
    else if d == 1 { '1' }
    else if d == 2 { '2' }
    else if d == 3 { '3' }
    else if d == 4 { '4' }
    else if d == 5 { '5' }
    else if d == 6 { '6' }
    else if d == 7 { '7' }
    else if d == 8 { '8' }
    else { '9' }
}

/// Decimal notation of `n`, without leading zeros.
pub open spec fn decimal(n: nat) -> Seq<char>
    decreases n,
{
    if n < 10 {
        seq![digit_char(n)]
    } else {
        decimal(n / 10).push(digit_char(n % 10))
    }
}

/// The acknowledgment text for request number `count` whose own parameter
/// is `p`.
pub open spec fn response_text(count: nat, p: Option<Seq<char>>) -> Seq<char> {
    "Request #"@ + decimal(count) + " - Params: "@ + if is_usable(p) {
        p->0
    } else {
        default_parameter()
    }
}

fn digit_str(d: u32) -> (r: &'static str)
    requires
        d < 10,
    ensures
        r@ == seq![digit_char(d as nat)],
{
    proof {
        reveal_strlit("0");
        reveal_strlit("1");
        reveal_strlit("2");
        reveal_strlit("3");
        reveal_strlit("4");
        reveal_strlit("5");
        reveal_strlit("6");
        reveal_strlit("7");
        reveal_strlit("8");
        reveal_strlit("9");
    }
    let r = if d == 0 { "0" }
    else if d == 1 { "1" }
    else if d == 2 { "2" }
    else if d == 3 { "3" }
    else if d == 4 { "4" }
    else if d == 5 { "5" }
    else if d == 6 { "6" }
    else if d == 7 { "7" }
    else if d == 8 { "8" }
    else { "9" };
    assert(r@ =~= seq![digit_char(d as nat)]);
    r
}

/// Decimal notation of `n`.
pub fn decimal_string(n: u32) -> (r: String)
    ensures
        r@ == decimal(n as nat),
{
    let mut acc = String::new();
    let mut m: u32 = n;
    while m >= 10
        invariant
            decimal(n as nat) == decimal(m as nat) + acc@,
        decreases m,
    {
        let d = digit_str(m % 10);
        proof {
            assert(decimal(m as nat) == decimal((m / 10) as nat).push(digit_char((m % 10) as nat)));
            assert(decimal(m as nat) + acc@ =~= decimal((m / 10) as nat) + (d@ + acc@));
        }
        acc = String::from_str(d).concat(acc.as_str());
        m = m / 10;
    }
    let r = String::from_str(digit_str(m)).concat(acc.as_str());
    assert(r@ =~= decimal(n as nat));
    r
}

/// The query component of `uri`: the bytes after its first `?`, or `None`
/// when it has none.
pub fn query_bytes(uri: &[u8]) -> (r: Option<Vec<u8>>)
    ensures
        match r {
            Some(q) => query_of(uri@) == Some(q@),
            None => query_of(uri@) is None,
        },
{
    let n = uri.len();
    let mut i: usize = 0;
    while i < n
        invariant
            n == uri@.len(),
            i <= n,
            forall|j: int| 0 <= j < i ==> !is_query_mark(#[trigger] uri@[j]),
        decreases n - i,
    {
        if uri[i] == 0x3Fu8 {
            let mut q: Vec<u8> = Vec::new();
            let mut k: usize = i + 1;
            while k < n
                invariant
                    n == uri@.len(),
                    i < k <= n,
                    q@ == uri@.subrange(i + 1, k as int),
                decreases n - k,
            {
                q.push(uri[k]);
                assert(q@ =~= uri@.subrange(i + 1, k + 1));
                k = k + 1;
            }
            proof {
                assert(first_mark(uri@, i as int));
                let c = choose|c: int| first_mark(uri@, c);
                if c < i {
                    assert(!is_query_mark(uri@[c]));
                } else if c > i {
                    assert(!is_query_mark(uri@[i as int]));
                }
            }
            return Some(q);
        }
        i = i + 1;
    }
    assert(!exists|c: int| first_mark(uri@, c));
    None
}

/// The first value of `values` that is not empty, if any.
pub fn first_non_empty_value(values: &Vec<String>) -> (r: Option<String>)
    ensures
        match r {
            Some(s) => first_non_empty(values.deep_view()) == Some(s@),
            None => first_non_empty(values.deep_view()) is None,
        },
{
    let ghost vs = values.deep_view();
    let n = values.len();
    let mut i: usize = 0;
    assert(vs.subrange(0, n as int) =~= vs);
    while i < n
        invariant
            n == vs.len(),
            vs == values.deep_view(),
            i <= n,
            first_non_empty(vs) == first_non_empty(vs.subrange(i as int, n as int)),
        decreases n - i,
    {
        let v = &values[i];
        proof {
            let rest = vs.subrange(i as int, n as int);
            assert(rest[0] == v@);
            assert(rest.drop_first() =~= vs.subrange(i + 1, n as int));
        }
        if v.as_str().unicode_len() > 0 {
            return Some(v.clone());
        }
        i = i + 1;
    }
    None
}

/// The parameter that a request to `uri` carries.
pub fn request_parameter(uri: &str) -> (r: Option<String>)
    ensures
        match r {
            Some(s) => extracted_parameter(uri.spec_bytes()) == Some(s@),
            None => extracted_parameter(uri.spec_bytes()) is None,
        },
{
    match query_bytes(uri.as_bytes()) {
        Some(q) => {
            let values = decoded_values(q.as_slice());
            assert(values.deep_view() =~= form_values(q@));
            first_non_empty_value(&values)
        },
        None => None,
    }
}

/// The acknowledgment text for request number `count` whose own parameter
/// is `parameter`.
pub fn response_body(count: u32, parameter: &Option<String>) -> (r: String)
    ensures
        r@ == response_text(count as nat, match parameter {
            Some(s) => Some(s@),
            None => None,
        }),
{
    proof {
        reveal_strlit("Request #");
        reveal_strlit(" - Params: ");
        reveal_strlit("Nenhum");
    }
    let head = String::from_str("Request #").concat(decimal_string(count).as_str()).concat(
        " - Params: ",
    );
    let usable = match parameter {
        Some(s) => s.as_str().unicode_len() > 0,
        None => false,
    };
    if usable {
        match parameter {
            Some(s) => head.concat(s.as_str()),
            None => head,
        }
    } else {
        let r = head.concat("Nenhum");
        assert("Nenhum"@ =~= default_parameter());
        r
    }
}

/// Handles one request to `uri`: records it in `store` and returns the
/// acknowledgment text.
pub fn handle_request(store: &mut StateStore, uri: &str) -> (body: String)
    requires
        old(store)@.count < u32::MAX,
    ensures
        final(store)@ == after_request(old(store)@, extracted_parameter(uri.spec_bytes())),
        body@ == response_text(final(store)@.count, extracted_parameter(uri.spec_bytes())),
{
    let parameter = request_parameter(uri);
    let count = store.increment_and_set(parameter.clone());
    response_body(count, &parameter)
}

} // verus!
