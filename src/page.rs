//! Page numbering: the correlation reference of a page and the slice of
//! results it asks for.

use vstd::prelude::*;

verus! {

/// Number of twins asked for by each page request.
pub const PAGE_SIZE: u32 = 100;

/// The decimal digit character of `d`.
pub open spec fn digit_char(d: nat) -> char {
    if d < 10 { (('0' as u32) + d) as char } else { '0' }
}

/// The decimal notation of `n`, most significant digit first, with no leading zero.
pub open spec fn decimal(n: nat) -> Seq<char>
    decreases n,
{
    if n < 10 {
        seq![digit_char(n)]
    } else {
        decimal(n / 10).push(digit_char(n % 10))
    }
}

/// Appends the decimal notation of `n` to `out`.
pub fn push_decimal(out: &mut String, n: u32)
    ensures
        final(out)@ == old(out)@ + decimal(n as nat),
    decreases n,
{
    if n >= 10 {
        push_decimal(out, n / 10);
    }
    let d: u32 = n % 10;
    push_char(out, ((48u8 + (d as u8)) as char));
}

/// Relies on `String::push`: the character is appended at the end.
#[verifier::external_body]
pub(crate) fn push_char(s: &mut String, c: char)
    ensures
        final(s)@ == old(s)@.push(c),
{
    s.push(c)
}

/// The value of a string of decimal digits, read most significant first.
pub open spec fn decimal_value(s: Seq<char>) -> nat
    decreases s.len(),
{
    if s.len() == 0 {
        0
    } else {
        decimal_value(s.drop_last()) * 10 + ((s.last() as u32) - ('0' as u32)) as nat
    }
}

/// Reading back the decimal notation of `n` gives `n`.
pub proof fn lemma_decimal_value(n: nat)
    ensures
        decimal_value(decimal(n)) == n,
    decreases n,
{
    if n >= 10 {
        lemma_decimal_value(n / 10);
        assert(decimal(n).drop_last() == decimal(n / 10));
        assert((digit_char(n % 10) as u32) - ('0' as u32) == n % 10);
        assert(decimal(n).last() == digit_char(n % 10));
        assert((n / 10) * 10 + n % 10 == n);
        assert(decimal_value(decimal(n)) == decimal_value(decimal(n / 10)) * 10 + n % 10);
    } else {
        assert(decimal(n).drop_last() =~= Seq::<char>::empty());
        assert((digit_char(n) as u32) - ('0' as u32) == n);
        assert(decimal_value(decimal(n)) == decimal_value(Seq::<char>::empty()) * 10 + n);
    }
}

/// Two numbers with the same decimal notation are equal.
pub proof fn lemma_decimal_injective(n: nat, m: nat)
    requires
        decimal(n) == decimal(m),
    ensures
        n == m,
{
    lemma_decimal_value(n);
    lemma_decimal_value(m);
}

/// The correlation reference of page `page` of the session `correlation_id`:
/// the id, an underscore, then the page number in decimal.
pub open spec fn client_ref_of(correlation_id: Seq<char>, page: nat) -> Seq<char> {
    correlation_id + seq!['_'] + decimal(page)
}

/// Within one session, distinct pages have distinct correlation references.
pub proof fn lemma_client_ref_injective(correlation_id: Seq<char>, n: nat, m: nat)
    requires
        client_ref_of(correlation_id, n) == client_ref_of(correlation_id, m),
    ensures
        n == m,
{
    let k = correlation_id.len() as int + 1;
    let a = client_ref_of(correlation_id, n);
    let b = client_ref_of(correlation_id, m);
    assert(a.subrange(k, a.len() as int) == decimal(n));
    assert(b.subrange(k, b.len() as int) == decimal(m));
    lemma_decimal_injective(n, m);
}

/// Formats the correlation reference `"{correlation_id}_{page}"` that a page
/// request carries and that every response to it echoes.
pub fn client_ref(correlation_id: &str, page: u32) -> (r: String)
    ensures
        r@ == client_ref_of(correlation_id@, page as nat),
{
    let mut r = correlation_id.to_owned();
    push_char(&mut r, '_');
    push_decimal(&mut r, page);
    r
}

/// Whether a search is answered by the local host only or by the whole network.
#[derive(Clone, Copy, Debug, PartialEq, Eq, Structural)]
pub enum Scope {
    Global,
    Local,
}

/// How much of each matching twin a response describes.
#[derive(Clone, Copy, Debug, PartialEq, Eq, Structural)]
pub enum ResponseType {
    Full,
    Located,
    Minimal,
}

/// The language in which a search is made and answered.
pub const SEARCH_LANG: &'static str = "en";

/// The slice of the results that one page asks for.
#[derive(Clone, Copy, Debug, PartialEq, Eq, Structural)]
pub struct PageRange {
    pub limit: u32,
    pub offset: u32,
}

/// Whether the offset of page `page` can be written as a `u32`.
pub open spec fn page_in_range(page: nat) -> bool {
    PAGE_SIZE * page <= u32::MAX
}

/// The range of page `page`: `PAGE_SIZE` results from offset `PAGE_SIZE * page`,
/// or `None` where that offset does not fit in a `u32`.
pub fn page_range(page: u32) -> (r: Option<PageRange>)
    ensures
        r is Some <==> page_in_range(page as nat),
        r is Some ==> r->Some_0.limit == PAGE_SIZE && r->Some_0.offset == PAGE_SIZE * page,
{
    if page <= u32::MAX / PAGE_SIZE {
        Some(PageRange { limit: PAGE_SIZE, offset: PAGE_SIZE * page })
    } else {
        None
    }
}

/// After page `page` of a listing returned `returned` items: the page to ask
/// for next, or `None` when the listing is complete (a short page) or the next
/// page's offset cannot be written.
pub fn next_list_page(page: u32, returned: usize) -> (r: Option<u32>)
    ensures
        r is Some <==> returned >= PAGE_SIZE && page_in_range(page as nat + 1),
        r is Some ==> r->Some_0 == page + 1,
{
    if returned < PAGE_SIZE as usize || page >= u32::MAX / PAGE_SIZE {
        None
    } else {
        Some(page + 1)
    }
}

/// One "fetch page N" dispatch, without the filter and the credentials that
/// travel beside it.
#[derive(Clone, Debug)]
pub struct PageRequest {
    pub client_app_id: String,
    pub client_ref: String,
    pub transaction_ref: Vec<String>,
    pub scope: Scope,
    pub lang: String,
    pub response_type: ResponseType,
    pub range: PageRange,
}

/// `r` asks for page `page` of the session `correlation_id`, with full detail.
pub open spec fn requests_page(
    r: PageRequest,
    correlation_id: Seq<char>,
    transaction_ref: Seq<String>,
    scope: Scope,
    page: nat,
) -> bool {
    &&& r.client_app_id@ == correlation_id
    &&& r.client_ref@ == client_ref_of(correlation_id, page)
    &&& r.transaction_ref@ == transaction_ref
    &&& r.scope == scope
    &&& r.lang@ == SEARCH_LANG@
    &&& r.response_type == ResponseType::Full
    &&& r.range.limit == PAGE_SIZE
    &&& r.range.offset == PAGE_SIZE * page
}

/// A copy of a list of strings.
pub fn copy_strings(v: &Vec<String>) -> (r: Vec<String>)
    ensures
        r@ == v@,
{
    let mut r: Vec<String> = Vec::new();
    let mut i: usize = 0;
    while i < v.len()
        invariant
            i <= v@.len(),
            r@ == v@.subrange(0, i as int),
        decreases v@.len() - i,
    {
        r.push(v[i].clone());
        i = i + 1;
    }
    assert(r@ == v@.subrange(0, v@.len() as int));
    assert(v@.subrange(0, v@.len() as int) =~= v@);
    r
}

/// Builds the request for page `page` of the session `correlation_id`, or
/// `None` where the page's offset does not fit in a `u32`.
pub fn page_request(
    correlation_id: &str,
    transaction_ref: &Vec<String>,
    scope: Scope,
    page: u32,
) -> (r: Option<PageRequest>)
    ensures
        r is Some <==> page_in_range(page as nat),
        r is Some ==> requests_page(r->Some_0, correlation_id@, transaction_ref@, scope, page as nat),
{
    match page_range(page) {
        Some(range) => Some(PageRequest {
            client_app_id: correlation_id.to_owned(),
            client_ref: client_ref(correlation_id, page),
            transaction_ref: copy_strings(transaction_ref),
            scope,
            lang: SEARCH_LANG.to_owned(),
            response_type: ResponseType::Full,
            range,
        }),
        None => None,
    }
}

} // verus!
