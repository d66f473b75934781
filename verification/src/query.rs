use vstd::prelude::*;
use vstd::string::StringExecFns;

verus! {

/// The page anchor used when no cursor exists yet: the very first run
/// starts at this offset instead of backfilling the entire remote
/// history.
pub const START_ANCHOR: u64 = 250000;

/// The listing endpoint of the remote source, ordered newest-first;
/// the anchor identifier is appended after the trailing page marker.
pub open spec fn url_prefix() -> Seq<char> {
    "https://e621.net/posts.json?tags=femboy+rating:s+order:id_desc&page=a"@
}

/// The identifier the query is anchored after: the stored cursor, or
/// the configured starting offset when none exists.
pub open spec fn anchor_of(cursor: Option<u64>) -> u64 {
    match cursor {
        Some(c) => c,
        None => START_ANCHOR,
    }
}

/// The character for one decimal digit.
pub open spec fn digit_char(d: int) -> char {
    if d == 0 {
        '0'
    } else if d == 1 {
        '1'
    } else if d == 2 {
        '2'
    } else if d == 3 {
        '3'
    } else if d == 4 {
        '4'
    } else if d == 5 {
        '5'
    } else if d == 6 {
        '6'
    } else if d == 7 {
        '7'
    } else if d == 8 {
        '8'
    } else {
        '9'
    }
}

/// The decimal rendering of a non-negative integer, most significant
/// digit first, with no leading zeros (a lone zero for zero).
pub open spec fn dec_digits(n: int) -> Seq<char>
    decreases n,
{
    if n < 10 {
        seq![digit_char(n)]
    } else {
        dec_digits(n / 10).push(digit_char(n % 10))
    }
}

/// The one-character string for one decimal digit.
fn digit_str(d: u64) -> (s: &'static str)
    requires
        d < 10,
    ensures
        s@ == seq![digit_char(d as int)],
{
    proof {
        reveal_strlit("0");
        reveal_strlit("1");
        reveal_strlit("2");
        reveal_strlit("3");
        reveal_strlit("4");
        reveal_strlit("5");
        reveal_strlit("6");
        reveal_strlit("7");
        reveal_strlit("8");
        reveal_strlit("9");
    }
    let s = match d {
        0 => "0",
        1 => "1",
        2 => "2",
        3 => "3",
        4 => "4",
        5 => "5",
        6 => "6",
        7 => "7",
        8 => "8",
        _ => "9",
    };
    proof {
        assert(s@ =~= seq![digit_char(d as int)]);
    }
    s
}

/// Renders an identifier in decimal, matching `dec_digits`.
pub fn u64_to_decimal(n: u64) -> (s: String)
    ensures
        s@ == dec_digits(n as int),
    decreases n,
{
    if n < 10 {
        let d = digit_str(n);
        d.to_owned()
    } else {
        let mut s = u64_to_decimal(n / 10);
        let d = digit_str(n % 10);
        s.append(d);
        proof {
            assert((n / 10) as int == n as int / 10);
            assert((n % 10) as int == n as int % 10);
            assert(dec_digits(n as int / 10) + seq![digit_char(n as int % 10)] =~= dec_digits(
                n as int / 10,
            ).push(digit_char(n as int % 10)));
        }
        s
    }
}

/// The full fetch query for a stored cursor: the newest-first listing,
/// anchored after the cursor, or after the starting offset on the
/// first-ever run.
pub open spec fn api_url_spec(cursor: Option<u64>) -> Seq<char> {
    url_prefix() + dec_digits(anchor_of(cursor) as int)
}

/// Builds the fetch query the host issues against the remote source.
pub fn api_url(cursor: Option<u64>) -> (r: String)
    ensures
        r@ == api_url_spec(cursor),
{
    let anchor = match cursor {
        Some(c) => c,
        None => START_ANCHOR,
    };
    let digits = u64_to_decimal(anchor);
    let mut s = "https://e621.net/posts.json?tags=femboy+rating:s+order:id_desc&page=a".to_owned();
    s.append(digits.as_str());
    s
}

} // verus!
