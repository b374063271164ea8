//! Paging through the directory's people, and the request for one page.
use vstd::prelude::*;

verus! {

/// Whether a byte is an ASCII letter or digit.
pub open spec fn is_alphanumeric(b: u8) -> bool {
    (48 <= b <= 57) || (65 <= b <= 90) || (97 <= b <= 122)
}

/// The upper-case hex digit of `n`, for `n < 16`.
pub open spec fn hex_upper(n: u8) -> char {
    if n < 10 {
        (48 + n) as char
    } else {
        (55 + n) as char
    }
}

/// The percent-encoding of bytes: ASCII letters and digits stand as they are,
/// every other byte becomes '%' and its two upper-case hex digits.
pub open spec fn percent_encoded(bytes: Seq<u8>) -> Seq<char>
    decreases bytes.len(),
{
    if bytes.len() == 0 {
        Seq::empty()
    } else {
        let b = bytes[0];
        let head = if is_alphanumeric(b) {
            seq![b as char]
        } else {
            seq!['%', hex_upper(b / 16), hex_upper(b % 16)]
        };
        head + percent_encoded(bytes.drop_first())
    }
}

/// Relies on percent_encoding::utf8_percent_encode with the NON_ALPHANUMERIC
/// set: the UTF-8 bytes of `s`, each one that is not an ASCII letter or digit
/// written as '%' and two upper-case hex digits.
#[verifier::external_body]
fn percent_encode_name(s: &str) -> (r: String)
    ensures
        r@ == percent_encoded(vstd::utf8::encode_utf8(s@)),
{
    percent_encoding::utf8_percent_encode(s, percent_encoding::NON_ALPHANUMERIC).to_string()
}

/// What a request for one page of active people, ordered by last name, asks
/// the directory for.
#[derive(Clone, Debug)]
pub struct PeopleRequest {
    pub per_page: usize,
    pub offset: usize,
    /// The name filter, percent-encoded.
    pub search_name: Option<String>,
}

/// The offset of a page: pages count from 1.
pub fn page_offset(page: usize, per_page: usize) -> (r: usize)
    requires
        page >= 1,
        (page - 1) * per_page <= usize::MAX,
    ensures
        r == (page - 1) * per_page,
{
    (page - 1) * per_page
}

/// The page, counted from 1, on which the item at `offset` stands.
pub fn page_for_offset(offset: usize, per_page: usize) -> (r: usize)
    requires
        per_page > 0,
        offset / per_page < usize::MAX,
    ensures
        r == offset / per_page + 1,
{
    offset / per_page + 1
}

/// Whether items remain after the page that starts at `offset` and holds
/// `returned` of `total` items.
pub fn has_more(offset: usize, returned: usize, total: usize) -> (r: bool)
    ensures
        r == (offset + returned < total),
{
    returned < total && offset < total - returned
}

/// The request for page `page` of `per_page` people, filtered by `name` when
/// one is given.
pub fn people_request(page: usize, per_page: usize, name: Option<&str>) -> (r: PeopleRequest)
    requires
        page >= 1,
        (page - 1) * per_page <= usize::MAX,
    ensures
        r.per_page == per_page,
        r.offset == (page - 1) * per_page,
        name is None ==> r.search_name is None,
        name matches Some(n) ==> (r.search_name matches Some(s) && s@ == percent_encoded(vstd::utf8::encode_utf8(n@))),
{
    let search_name = match name {
        Some(n) => Some(percent_encode_name(n)),
        None => None,
    };
    PeopleRequest { per_page, offset: page_offset(page, per_page), search_name }
}

} // verus!
