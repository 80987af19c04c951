//! The addresses at which the service is asked, as text.

use vstd::prelude::*;

verus! {

/// How long a request for metadata may take, in seconds. Downloads of the
/// images themselves have no limit.
pub const METADATA_TIMEOUT_SECS: u64 = 3;

/// The content type that every request for metadata says it accepts.
pub const METADATA_ACCEPT: &'static str = "text/plain";

/// The status of an answer that holds what was asked for.
pub const STATUS_OK: u16 = 200;

/// The character that writes the digit `d`.
pub open spec fn digit(d: int) -> char {
    if d == 0 {
        '0'
    } else if d == 1 {
        '1'
    } else if d == 2 {
        '2'
    } else if d == 3 {
        '3'
    } else if d == 4 {
        '4'
    } else if d == 5 {
        '5'
    } else if d == 6 {
        '6'
    } else if d == 7 {
        '7'
    } else if d == 8 {
        '8'
    } else {
        '9'
    }
}

/// The decimal digits of `n`, most significant first, without leading zeros.
pub open spec fn digits(n: nat) -> Seq<char>
    decreases n,
{
    if n < 10 {
        seq![digit(n as int)]
    } else {
        digits(n / 10).push(digit((n % 10) as int))
    }
}

/// `i` written in decimal, with a minus sign in front where it is negative.
pub open spec fn decimal(i: int) -> Seq<char> {
    if i < 0 {
        seq!['-'] + digits((-i) as nat)
    } else {
        digits(i as nat)
    }
}

/// The address of the list of `user`'s collections.
pub open spec fn collections_address(user: Seq<char>) -> Seq<char> {
    "https://wallhaven.cc/api/v1/collections/"@ + user
}

/// The address of page `page` of `user`'s collection `id`.
pub open spec fn collection_address(user: Seq<char>, id: int, page: int) -> Seq<char> {
    "https://wallhaven.cc/api/v1/collections/"@ + user + "/"@ + decimal(id) + "?page="@ + decimal(
        page,
    )
}

/// The address of page `page` of the results for the query `q`, which is
/// inserted as it stands.
pub open spec fn search_address(q: Seq<char>, page: int) -> Seq<char> {
    "https://wallhaven.cc/api/v1/search?q="@ + q + "&page="@ + decimal(page)
}

/// The query that asks for everything `user` uploaded.
pub open spec fn uploads_query(user: Seq<char>) -> Seq<char> {
    "@"@ + user
}

fn digit_str(d: u32) -> (r: &'static str)
    requires
        d < 10,
    ensures
        r@ == seq![digit(d as int)],
{
    proof {
        reveal_strlit("0");
        reveal_strlit("1");
        reveal_strlit("2");
        reveal_strlit("3");
        reveal_strlit("4");
        reveal_strlit("5");
        reveal_strlit("6");
        reveal_strlit("7");
        reveal_strlit("8");
        reveal_strlit("9");
    }
    let r = if d == 0 {
        "0"
    } else if d == 1 {
        "1"
    } else if d == 2 {
        "2"
    } else if d == 3 {
        "3"
    } else if d == 4 {
        "4"
    } else if d == 5 {
        "5"
    } else if d == 6 {
        "6"
    } else if d == 7 {
        "7"
    } else if d == 8 {
        "8"
    } else {
        "9"
    };
    assert(r@ =~= seq![digit(d as int)]);
    r
}

fn append_digits(text: &mut String, n: u32)
    ensures
        final(text)@ == old(text)@ + digits(n as nat),
    decreases n,
{
    if n >= 10 {
        append_digits(text, n / 10);
    }
    text.append(digit_str(n % 10));
    assert(final(text)@ =~= old(text)@ + digits(n as nat));
}

/// Appends `i` in decimal to `text`.
pub fn append_decimal(text: &mut String, i: i32)
    ensures
        final(text)@ == old(text)@ + decimal(i as int),
{
    if i < 0 {
        proof {
            reveal_strlit("-");
        }
        text.append("-");
        let magnitude: u32 = (-(i as i64)) as u32;
        append_digits(text, magnitude);
        assert(final(text)@ =~= old(text)@ + decimal(i as int));
    } else {
        append_digits(text, i as u32);
    }
}

/// Whether an answer with this status is read at all. Any status but 200
/// is a failed request, whatever its body holds.
pub fn answer_counts(status: u16) -> (r: bool)
    ensures
        r == (status == 200),
{
    status == STATUS_OK
}

/// The address of the list of `user`'s collections.
pub fn user_collections_url(user: &str) -> (r: String)
    ensures
        r@ == collections_address(user@),
{
    let mut url = String::from_str("https://wallhaven.cc/api/v1/collections/");
    url.append(user);
    url
}

/// The address of page `page` of `user`'s collection `collection_id`.
pub fn user_collection_url(user: &str, collection_id: i32, page: i32) -> (r: String)
    ensures
        r@ == collection_address(user@, collection_id as int, page as int),
{
    let mut url = String::from_str("https://wallhaven.cc/api/v1/collections/");
    url.append(user);
    url.append("/");
    append_decimal(&mut url, collection_id);
    url.append("?page=");
    append_decimal(&mut url, page);
    url
}

/// The address of page `page` of the results for `q`.
pub fn search_url(q: &str, page: i32) -> (r: String)
    ensures
        r@ == search_address(q@, page as int),
{
    let mut url = String::from_str("https://wallhaven.cc/api/v1/search?q=");
    url.append(q);
    url.append("&page=");
    append_decimal(&mut url, page);
    url
}

/// The query that asks for everything `user` uploaded.
pub fn user_query(user: &str) -> (r: String)
    ensures
        r@ == uploads_query(user@),
{
    let mut q = String::from_str("@");
    q.append(user);
    q
}

} // verus!
